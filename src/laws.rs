//! Facts about the viewer's transitions over any deck and any events.
use vstd::prelude::*;

use crate::app::{is_quit_key, step, step_all, InputEvent, KeyCode, KeyInput, ViewerModel, CONTROL};

verus! {

/// One transition keeps the deck and keeps the index on it.
pub proof fn lemma_step_keeps_wf(m: ViewerModel, ev: InputEvent)
    requires
        m.wf(),
    ensures
        step(m, ev).wf(),
        step(m, ev).cards == m.cards,
{
}

/// On a non-empty deck, after any finite sequence of events the index still
/// points at a card of the same deck: moving stops at either end.
pub proof fn lemma_index_stays_in_deck(m: ViewerModel, evs: Seq<InputEvent>)
    requires
        m.wf(),
        m.cards.len() > 0,
    ensures
        step_all(m, evs).cards == m.cards,
        0 <= step_all(m, evs).index < m.cards.len(),
    decreases evs.len(),
{
    if evs.len() > 0 {
        lemma_step_keeps_wf(m, evs[0]);
        lemma_index_stays_in_deck(step(m, evs[0]), evs.drop_first());
    }
}

/// The same key pressed `n` times.
pub open spec fn presses(k: KeyInput, n: nat) -> Seq<InputEvent> {
    Seq::new(n, |i: int| InputEvent::KeyPress(k))
}

/// `n` presses of Up reveal the answer `n` times over: the visibility is
/// flipped exactly when `n` is odd, and nothing else changes.
pub proof fn lemma_up_presses(m: ViewerModel, k: KeyInput, n: nat)
    requires
        k.code == KeyCode::Up,
    ensures
        step_all(m, presses(k, n)) == (ViewerModel {
            answer_visible: if n % 2 == 0 {
                m.answer_visible
            } else {
                !m.answer_visible
            },
            ..m
        }),
    decreases n,
{
    if n > 0 {
        let m1 = step(m, InputEvent::KeyPress(k));
        assert(presses(k, n).drop_first() =~= presses(k, (n - 1) as nat));
        lemma_up_presses(m1, k, (n - 1) as nat);
    }
}

/// An even number of Up presses leaves the answer's visibility as it was.
pub proof fn lemma_even_up_presses_restore(m: ViewerModel, k: KeyInput, n: nat)
    requires
        k.code == KeyCode::Up,
        n % 2 == 0,
    ensures
        step_all(m, presses(k, n)).answer_visible == m.answer_visible,
{
    lemma_up_presses(m, k, n);
}

/// After a Left or Right press the answer is hidden, whatever it was.
pub proof fn lemma_navigation_hides_answer(m: ViewerModel, k: KeyInput)
    requires
        k.code == KeyCode::Left || k.code == KeyCode::Right,
    ensures
        !step(m, InputEvent::KeyPress(k)).answer_visible,
{
}

/// Escape, `q`, `Q`, Control-`c` and Control-`C` stop the viewer, and no
/// other event does: the viewer runs on after an event exactly when it ran
/// before and the event is no press of a quit key.
pub proof fn lemma_only_quit_keys_stop(m: ViewerModel, ev: InputEvent)
    ensures
        step(m, ev).running == (m.running && !(ev matches InputEvent::KeyPress(k)
            && is_quit_key(k))),
        forall|mods: u8|
            {
                &&& !step(m, InputEvent::KeyPress(KeyInput { code: KeyCode::Esc, modifiers: mods })).running
                &&& !step(m, InputEvent::KeyPress(KeyInput { code: KeyCode::Char('q'), modifiers: mods })).running
                &&& !step(m, InputEvent::KeyPress(KeyInput { code: KeyCode::Char('Q'), modifiers: mods })).running
            },
        !step(m, InputEvent::KeyPress(KeyInput { code: KeyCode::Char('c'), modifiers: CONTROL })).running,
        !step(m, InputEvent::KeyPress(KeyInput { code: KeyCode::Char('C'), modifiers: CONTROL })).running,
{
}

} // verus!
