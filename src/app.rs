//! The viewer: navigation state over a deck, the keyboard transitions that
//! change it, and what is shown for it.
use vstd::prelude::*;

use crate::flashcard::{views, Flashcard};

verus! {

/// The modifier bit that marks the Control key as held.
pub const CONTROL: u8 = 0x02;

/// A key, as far as the viewer tells keys apart.
#[derive(Debug, Clone, Copy, PartialEq, Eq, Structural)]
pub enum KeyCode {
    Esc,
    Up,
    Down,
    Left,
    Right,
    Char(char),
    Other,
}

/// A key together with the modifier bits held with it (`CONTROL` among them).
#[derive(Debug, Clone, Copy, PartialEq, Eq, Structural)]
pub struct KeyInput {
    pub code: KeyCode,
    pub modifiers: u8,
}

/// A terminal input event.
#[derive(Debug, Clone, Copy, PartialEq, Eq, Structural)]
pub enum InputEvent {
    KeyPress(KeyInput),
    KeyRepeat(KeyInput),
    KeyRelease(KeyInput),
    Mouse,
    Resize { width: u16, height: u16 },
    Other,
}

/// The abstract state of a viewer: the deck, the card shown, whether its
/// answer is revealed, and whether the viewer keeps running.
pub struct ViewerModel {
    pub cards: Seq<(Seq<char>, Seq<char>)>,
    pub index: int,
    pub answer_visible: bool,
    pub running: bool,
}

impl ViewerModel {
    /// The index points at a card, or is 0 for an empty deck.
    pub open spec fn wf(self) -> bool {
        if self.cards.len() == 0 {
            self.index == 0
        } else {
            0 <= self.index < self.cards.len()
        }
    }
}

/// The state a viewer starts in.
pub open spec fn initial(cards: Seq<(Seq<char>, Seq<char>)>) -> ViewerModel {
    ViewerModel { cards, index: 0, answer_visible: false, running: true }
}

/// Escape, `q` or `Q` with any modifiers, or exactly Control with `c` or `C`.
pub open spec fn is_quit_key(k: KeyInput) -> bool {
    k.code == KeyCode::Esc || k.code == KeyCode::Char('q') || k.code == KeyCode::Char('Q')
        || (k.modifiers == CONTROL && (k.code == KeyCode::Char('c') || k.code
        == KeyCode::Char('C')))
}

/// The viewer stopped.
pub open spec fn quit_model(m: ViewerModel) -> ViewerModel {
    ViewerModel { running: false, ..m }
}

/// The answer's visibility flipped.
pub open spec fn flip_model(m: ViewerModel) -> ViewerModel {
    ViewerModel { answer_visible: !m.answer_visible, ..m }
}

/// One card on, stopping at the last card; the answer is hidden.
pub open spec fn next_model(m: ViewerModel) -> ViewerModel {
    ViewerModel {
        index: if m.index + 1 < m.cards.len() {
            m.index + 1
        } else {
            m.index
        },
        answer_visible: false,
        ..m
    }
}

/// One card back, stopping at the first card; the answer is hidden.
pub open spec fn previous_model(m: ViewerModel) -> ViewerModel {
    ViewerModel {
        index: if m.index > 0 {
            m.index - 1
        } else {
            m.index
        },
        answer_visible: false,
        ..m
    }
}

/// The transition for a pressed key. The Left arrow moves to the later card
/// and the Right arrow to the earlier one.
pub open spec fn on_key(m: ViewerModel, k: KeyInput) -> ViewerModel {
    if is_quit_key(k) {
        quit_model(m)
    } else {
        match k.code {
            KeyCode::Up => flip_model(m),
            KeyCode::Left => next_model(m),
            KeyCode::Right => previous_model(m),
            _ => m,
        }
    }
}

/// The transition for any event: only key presses change the state.
pub open spec fn step(m: ViewerModel, ev: InputEvent) -> ViewerModel {
    match ev {
        InputEvent::KeyPress(k) => on_key(m, k),
        _ => m,
    }
}

/// The state after a sequence of events, taken in order.
pub open spec fn step_all(m: ViewerModel, evs: Seq<InputEvent>) -> ViewerModel
    decreases evs.len(),
{
    if evs.len() == 0 {
        m
    } else {
        step_all(step(m, evs[0]), evs.drop_first())
    }
}

/// What the viewer shows for one card: its question, and its answer or
/// nothing while the answer is hidden.
pub struct CardView {
    pub front: String,
    pub back: String,
}

/// The viewer: it owns the deck and the navigation state.
pub struct App {
    running: bool,
    flashcards: Vec<Flashcard>,
    current_index: usize,
    display_answer: bool,
}

impl View for App {
    type V = ViewerModel;

    closed spec fn view(&self) -> ViewerModel {
        ViewerModel {
            cards: views(self.flashcards@),
            index: self.current_index as int,
            answer_visible: self.display_answer,
            running: self.running,
        }
    }
}

impl App {
    /// The index points at a card, or is 0 for an empty deck.
    pub open spec fn wf(&self) -> bool {
        self@.wf()
    }

    /// A viewer on the given deck, at the first card with the answer hidden.
    /// An empty deck is accepted: it shows no card and does not move.
    pub fn new(flashcards: Vec<Flashcard>) -> (r: App)
        ensures
            r.wf(),
            r@ == initial(views(flashcards@)),
    {
        App { running: true, flashcards, current_index: 0, display_answer: false }
    }

    /// Stop the viewer.
    pub fn quit(&mut self)
        requires
            old(self).wf(),
        ensures
            final(self).wf(),
            final(self)@ == quit_model(old(self)@),
    {
        self.running = false;
    }

    /// Reveal the answer if hidden, hide it if shown.
    pub fn flip_current_card(&mut self)
        requires
            old(self).wf(),
        ensures
            final(self).wf(),
            final(self)@ == flip_model(old(self)@),
    {
        self.display_answer = !self.display_answer;
    }

    /// Move one card on, unless at the last card, and hide the answer.
    pub fn next_card(&mut self)
        requires
            old(self).wf(),
        ensures
            final(self).wf(),
            final(self)@ == next_model(old(self)@),
    {
        assert(self@.cards.len() == self.flashcards@.len());
        assert(self.current_index < self.flashcards.len() || self.current_index == 0);
        if self.current_index + 1 < self.flashcards.len() {
            self.current_index = self.current_index + 1;
        }
        self.display_answer = false;
    }

    /// Move one card back, unless at the first card, and hide the answer.
    pub fn previous_card(&mut self)
        requires
            old(self).wf(),
        ensures
            final(self).wf(),
            final(self)@ == previous_model(old(self)@),
    {
        if self.current_index > 0 {
            self.current_index = self.current_index - 1;
        }
        self.display_answer = false;
    }

    /// Apply the transition for a pressed key.
    pub fn on_key_event(&mut self, key: KeyInput)
        requires
            old(self).wf(),
        ensures
            final(self).wf(),
            final(self)@ == on_key(old(self)@, key),
    {
        let quits = match key.code {
            KeyCode::Esc => true,
            KeyCode::Char(c) => c == 'q' || c == 'Q' || (key.modifiers == CONTROL && (c == 'c'
                || c == 'C')),
            _ => false,
        };
        if quits {
            self.quit();
        } else {
            match key.code {
                KeyCode::Up => self.flip_current_card(),
                KeyCode::Left => self.next_card(),
                KeyCode::Right => self.previous_card(),
                _ => {},
            }
        }
    }

    /// Apply the transition for an input event: key presses are handled,
    /// every other event leaves the state as it is.
    pub fn handle_event(&mut self, event: InputEvent)
        requires
            old(self).wf(),
        ensures
            final(self).wf(),
            final(self)@ == step(old(self)@, event),
    {
        match event {
            InputEvent::KeyPress(key) => self.on_key_event(key),
            _ => {},
        }
    }

    /// Whether the viewer keeps running.
    pub fn is_running(&self) -> (r: bool)
        ensures
            r == self@.running,
    {
        self.running
    }

    /// The position of the card shown.
    pub fn current_index(&self) -> (r: usize)
        ensures
            r == self@.index,
    {
        self.current_index
    }

    /// Whether the answer of the card shown is revealed.
    pub fn answer_visible(&self) -> (r: bool)
        ensures
            r == self@.answer_visible,
    {
        self.display_answer
    }

    /// The number of cards in the deck.
    pub fn len(&self) -> (r: usize)
        ensures
            r == self@.cards.len(),
    {
        self.flashcards.len()
    }

    /// The card shown, or `None` for an empty deck.
    pub fn current_card(&self) -> (r: Option<&Flashcard>)
        requires
            self.wf(),
        ensures
            r is None <==> self@.cards.len() == 0,
            r matches Some(c) ==> c@ == self@.cards[self@.index],
    {
        if self.current_index < self.flashcards.len() {
            Some(&self.flashcards[self.current_index])
        } else {
            None
        }
    }

    /// What is shown: the question of the current card, and its answer while
    /// revealed or an empty text while hidden; `None` for an empty deck.
    pub fn card_view(&self) -> (r: Option<CardView>)
        requires
            self.wf(),
        ensures
            r is None <==> self@.cards.len() == 0,
            r matches Some(v) ==> {
                &&& v.front@ == self@.cards[self@.index].0
                &&& v.back@ == if self@.answer_visible {
                    self@.cards[self@.index].1
                } else {
                    Seq::<char>::empty()
                }
            },
    {
        match self.current_card() {
            None => None,
            Some(card) => {
                let back = if self.display_answer {
                    card.back()
                } else {
                    String::new()
                };
                Some(CardView { front: card.front(), back })
            },
        }
    }
}

} // verus!
