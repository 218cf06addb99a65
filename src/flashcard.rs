//! Cards and the loading of a deck from comma-separated text.
use vstd::prelude::*;

verus! {

/// One question/answer pair. Never changed once built.
#[derive(Debug, Clone)]
pub struct Flashcard {
    front_text: String,
    back_text: String,
}

impl View for Flashcard {
    /// The card as (front text, back text).
    type V = (Seq<char>, Seq<char>);

    closed spec fn view(&self) -> (Seq<char>, Seq<char>) {
        (self.front_text@, self.back_text@)
    }
}

/// The views of a sequence of cards.
pub open spec fn views(cards: Seq<Flashcard>) -> Seq<(Seq<char>, Seq<char>)> {
    cards.map_values(|c: Flashcard| c@)
}

impl Flashcard {
    /// The answer text.
    pub fn back(&self) -> (r: String)
        ensures
            r@ == self@.1,
    {
        self.back_text.clone()
    }

    /// The question text.
    pub fn front(&self) -> (r: String)
        ensures
            r@ == self@.0,
    {
        self.front_text.clone()
    }
}

impl From<(String, String)> for Flashcard {
    fn from(value: (String, String)) -> (r: Flashcard)
        ensures
            r@ == (value.0@, value.1@),
    {
        Flashcard { front_text: value.0, back_text: value.1 }
    }
}

impl vstd::std_specs::convert::FromSpecImpl<(String, String)> for Flashcard {
    open spec fn obeys_from_spec() -> bool {
        true
    }

    closed spec fn from_spec(v: (String, String)) -> Flashcard {
        Flashcard { front_text: v.0, back_text: v.1 }
    }
}

#[verifier::external_type_specification]
#[verifier::external_body]
pub struct ExCsvError(csv::Error);

/// Why a deck could not be loaded.
#[derive(Debug)]
pub enum LoadError {
    /// The reader refused the text: a row whose number of fields differs
    /// from the header row's.
    Csv(csv::Error),
    /// The data row at this position (0 for the first row after the header)
    /// has fewer than two fields.
    MissingField { record: usize },
    /// The text holds no data row, so there is no card to show.
    Empty,
}

/// The rows that csv's reader, with its default settings, yields for a text:
/// the rows after the header row, each as its fields, or `None` where the
/// reader reports an error.
pub uninterp spec fn csv_records(text: Seq<char>) -> Option<Seq<Seq<Seq<char>>>>;

/// The views of rows of fields.
pub open spec fn rows_view(rows: Seq<Vec<String>>) -> Seq<Seq<Seq<char>>> {
    rows.map_values(|row: Vec<String>| row@.map_values(|f: String| f@))
}

/// Relies on `csv::Reader::from_reader` and `Reader::records`: the records of
/// the text after its header row, each as its fields, or the first error.
#[verifier::external_body]
fn read_csv_rows(text: &str) -> (r: Result<Vec<Vec<String>>, csv::Error>)
    ensures
        match r {
            Ok(rows) => csv_records(text@) == Some(rows_view(rows@)),
            Err(_) => csv_records(text@) is None,
        },
{
    let mut reader = csv::Reader::from_reader(text.as_bytes());
    reader.records().map(|rec| rec.map(|rec| rec.iter().map(String::from).collect())).collect()
}

/// A row has too few fields to make a card.
pub open spec fn is_short_row(row: Seq<Seq<char>>) -> bool {
    row.len() < 2
}

/// Some row has too few fields to make a card.
pub open spec fn has_short_row(rows: Seq<Seq<Seq<char>>>) -> bool {
    exists|i: int| 0 <= i < rows.len() && #[trigger] is_short_row(rows[i])
}

/// The first row with too few fields is at `i`.
pub open spec fn first_short_row(rows: Seq<Seq<Seq<char>>>, i: int) -> bool {
    &&& 0 <= i < rows.len()
    &&& is_short_row(rows[i])
    &&& forall|j: int| 0 <= j < i ==> !#[trigger] is_short_row(rows[j])
}

/// The deck that rows make: field 0 is the front, field 1 the back, further
/// fields are ignored.
pub open spec fn deck_of(rows: Seq<Seq<Seq<char>>>) -> Seq<(Seq<char>, Seq<char>)> {
    rows.map_values(|row: Seq<Seq<char>>| (row[0], row[1]))
}

/// Whether loading from rows that the reader accepted succeeds, and which
/// error it gives otherwise: the first row with too few fields, else no rows
/// at all.
pub open spec fn load_outcome(
    rows: Seq<Seq<Seq<char>>>,
    r: Result<Vec<Flashcard>, LoadError>,
) -> bool {
    &&& (r is Ok) <==> (rows.len() > 0 && !has_short_row(rows))
    &&& (r matches Err(e) && e is MissingField) <==> has_short_row(rows)
    &&& r matches Err(LoadError::MissingField { record }) ==> first_short_row(rows, record as int)
    &&& (r matches Err(e) && e is Empty) <==> rows.len() == 0
    &&& !(r matches Err(e) && e is Csv)
}

/// What loading gives for rows that the reader accepted: as `load_outcome`
/// says, and on success the deck of the rows, in their order.
pub open spec fn loads_from_rows(
    rows: Seq<Seq<Seq<char>>>,
    r: Result<Vec<Flashcard>, LoadError>,
) -> bool {
    &&& load_outcome(rows, r)
    &&& r matches Ok(cards) ==> views(cards@) == deck_of(rows)
}

/// Relies on rand's `SliceRandom::shuffle` with the thread-local generator:
/// it reorders the cards by swaps, so the same cards remain, each as often.
#[verifier::external_body]
fn shuffle_cards(cards: &mut Vec<Flashcard>)
    ensures
        final(cards)@.len() == old(cards)@.len(),
        views(final(cards)@).to_multiset() == views(old(cards)@).to_multiset(),
{
    rand::seq::SliceRandom::shuffle(cards.as_mut_slice(), &mut rand::thread_rng());
}

impl Flashcard {
    /// Build the deck from rows of fields.
    pub fn from_records(rows: Vec<Vec<String>>) -> (r: Result<Vec<Flashcard>, LoadError>)
        ensures
            loads_from_rows(rows_view(rows@), r),
    {
        let ghost rv = rows_view(rows@);
        if rows.len() == 0 {
            return Err(LoadError::Empty);
        }
        let mut cards: Vec<Flashcard> = Vec::new();
        let mut i: usize = 0;
        while i < rows.len()
            invariant
                rv == rows_view(rows@),
                0 <= i <= rows.len(),
                cards@.len() == i,
                forall|j: int| 0 <= j < i ==> !#[trigger] is_short_row(rv[j]),
                forall|j: int| 0 <= j < i ==> #[trigger] cards@[j]@ == (rv[j][0], rv[j][1]),
            decreases rows.len() - i,
        {
            let row = &rows[i];
            assert(rv[i as int] == row@.map_values(|f: String| f@));
            if row.len() < 2 {
                assert(is_short_row(rv[i as int]));
                return Err(LoadError::MissingField { record: i });
            }
            let card = Flashcard::from((row[0].clone(), row[1].clone()));
            cards.push(card);
            i = i + 1;
        }
        assert(views(cards@) =~= deck_of(rv));
        Ok(cards)
    }

    /// Load a deck from comma-separated text. The first row is a header and
    /// makes no card; every later row makes one card of its first two fields.
    pub fn from_csv_text(text: &str) -> (r: Result<Vec<Flashcard>, LoadError>)
        ensures
            match csv_records(text@) {
                None => r matches Err(e) && e is Csv,
                Some(rows) => loads_from_rows(rows, r),
            },
    {
        match read_csv_rows(text) {
            Err(e) => Err(LoadError::Csv(e)),
            Ok(rows) => Flashcard::from_records(rows),
        }
    }

    /// Put the deck in a random order: a permutation of the same cards.
    pub fn shuffle_deck(cards: &mut Vec<Flashcard>)
        ensures
            final(cards)@.len() == old(cards)@.len(),
            views(final(cards)@).to_multiset() == views(old(cards)@).to_multiset(),
    {
        shuffle_cards(cards);
    }

    /// Load a deck from comma-separated text as `from_csv_text` does, and put
    /// it in a random order where `shuffle` asks for it.
    pub fn load_deck(text: &str, shuffle: bool) -> (r: Result<Vec<Flashcard>, LoadError>)
        ensures
            match csv_records(text@) {
                None => r matches Err(e) && e is Csv,
                Some(rows) => {
                    &&& load_outcome(rows, r)
                    &&& !shuffle ==> (r matches Ok(cards) ==> views(cards@) == deck_of(rows))
                    &&& shuffle ==> (r matches Ok(cards) ==> {
                        &&& cards@.len() == rows.len()
                        &&& views(cards@).to_multiset() == deck_of(rows).to_multiset()
                    })
                },
            },
    {
        let loaded = Flashcard::from_csv_text(text);
        match loaded {
            Ok(mut cards) => {
                if shuffle {
                    Flashcard::shuffle_deck(&mut cards);
                }
                assert(views(cards@).len() == cards@.len());
                assert(deck_of(csv_records(text@).unwrap()).len() == csv_records(text@).unwrap().len());
                Ok(cards)
            },
            Err(e) => Err(e),
        }
    }
}

} // verus!
