use flashcards::app::{CardView, InputEvent, KeyCode, KeyInput, CONTROL};
use flashcards::{App, Flashcard};

fn card(front: &str, back: &str) -> Flashcard {
    Flashcard::from((front.to_string(), back.to_string()))
}

fn press(code: KeyCode) -> InputEvent {
    InputEvent::KeyPress(KeyInput { code, modifiers: 0 })
}

fn two_card_app() -> App {
    App::new(vec![card("2+2?", "4"), card("Capital of France?", "Paris")])
}

fn shown(app: &App) -> (String, String) {
    let view: CardView = app.card_view().expect("a card is shown");
    (view.front, view.back)
}

#[test]
fn starts_at_first_card_hidden_and_running() {
    let app = two_card_app();
    assert_eq!(app.current_index(), 0);
    assert!(!app.answer_visible());
    assert!(app.is_running());
    assert_eq!(app.len(), 2);
    assert_eq!(shown(&app), ("2+2?".to_string(), String::new()));
}

#[test]
fn two_card_walkthrough() {
    let mut app = two_card_app();
    app.handle_event(press(KeyCode::Up));
    assert!(app.answer_visible());
    assert_eq!(shown(&app), ("2+2?".to_string(), "4".to_string()));

    app.handle_event(press(KeyCode::Left));
    assert_eq!(app.current_index(), 1);
    assert!(!app.answer_visible());
    assert_eq!(shown(&app), ("Capital of France?".to_string(), String::new()));

    app.handle_event(press(KeyCode::Left));
    assert_eq!(app.current_index(), 1);
    assert!(!app.answer_visible());

    app.handle_event(press(KeyCode::Right));
    assert_eq!(app.current_index(), 0);
    app.handle_event(press(KeyCode::Right));
    assert_eq!(app.current_index(), 0);
    assert!(app.is_running());
}

#[test]
fn single_card_never_moves() {
    let mut app = App::new(vec![card("only", "one")]);
    for code in [KeyCode::Left, KeyCode::Right, KeyCode::Left, KeyCode::Left, KeyCode::Right] {
        app.handle_event(press(code));
        assert_eq!(app.current_index(), 0);
    }
}

#[test]
fn empty_deck_shows_nothing_and_stays_put() {
    let mut app = App::new(Vec::new());
    assert!(app.card_view().is_none());
    assert!(app.current_card().is_none());
    app.handle_event(press(KeyCode::Left));
    app.handle_event(press(KeyCode::Right));
    app.handle_event(press(KeyCode::Up));
    assert_eq!(app.current_index(), 0);
    assert!(app.card_view().is_none());
}

#[test]
fn index_stays_in_deck_over_many_moves() {
    let mut app = App::new(vec![card("a", "1"), card("b", "2"), card("c", "3")]);
    let moves = [
        KeyCode::Left, KeyCode::Left, KeyCode::Left, KeyCode::Left, KeyCode::Right,
        KeyCode::Left, KeyCode::Right, KeyCode::Right, KeyCode::Right, KeyCode::Right,
    ];
    for code in moves {
        app.handle_event(press(code));
        assert!(app.current_index() < app.len());
    }
    assert_eq!(app.current_index(), 0);
}

#[test]
fn even_up_presses_restore_visibility() {
    let mut app = two_card_app();
    for _ in 0..4 {
        app.handle_event(press(KeyCode::Up));
    }
    assert!(!app.answer_visible());
    for _ in 0..3 {
        app.handle_event(press(KeyCode::Up));
    }
    assert!(app.answer_visible());
}

#[test]
fn navigation_hides_answer() {
    let mut app = two_card_app();
    app.flip_current_card();
    app.next_card();
    assert!(!app.answer_visible());
    app.flip_current_card();
    app.previous_card();
    assert!(!app.answer_visible());
    app.flip_current_card();
    app.previous_card();
    assert!(!app.answer_visible());
    assert_eq!(app.current_index(), 0);
}

#[test]
fn quit_keys_stop_the_viewer() {
    let quits = [
        KeyInput { code: KeyCode::Esc, modifiers: 0 },
        KeyInput { code: KeyCode::Char('q'), modifiers: 0 },
        KeyInput { code: KeyCode::Char('Q'), modifiers: 0 },
        KeyInput { code: KeyCode::Char('c'), modifiers: CONTROL },
        KeyInput { code: KeyCode::Char('C'), modifiers: CONTROL },
    ];
    for key in quits {
        let mut app = two_card_app();
        app.handle_event(InputEvent::KeyPress(key));
        assert!(!app.is_running());
    }
}

#[test]
fn other_events_keep_running() {
    let others = [
        InputEvent::KeyPress(KeyInput { code: KeyCode::Char('c'), modifiers: 0 }),
        InputEvent::KeyPress(KeyInput { code: KeyCode::Char('x'), modifiers: CONTROL }),
        InputEvent::KeyPress(KeyInput { code: KeyCode::Down, modifiers: 0 }),
        InputEvent::KeyPress(KeyInput { code: KeyCode::Other, modifiers: 0 }),
        InputEvent::KeyRelease(KeyInput { code: KeyCode::Char('q'), modifiers: 0 }),
        InputEvent::KeyRepeat(KeyInput { code: KeyCode::Esc, modifiers: 0 }),
        InputEvent::Mouse,
        InputEvent::Resize { width: 80, height: 24 },
        InputEvent::Other,
    ];
    for ev in others {
        let mut app = two_card_app();
        app.handle_event(ev);
        assert!(app.is_running());
        assert_eq!(app.current_index(), 0);
        assert!(!app.answer_visible());
    }
}

#[test]
fn released_keys_do_not_move() {
    let mut app = two_card_app();
    app.handle_event(InputEvent::KeyRelease(KeyInput { code: KeyCode::Left, modifiers: 0 }));
    assert_eq!(app.current_index(), 0);
}

#[test]
fn quit_method_and_key_event() {
    let mut app = two_card_app();
    app.on_key_event(KeyInput { code: KeyCode::Left, modifiers: CONTROL });
    assert_eq!(app.current_index(), 1);
    app.quit();
    assert!(!app.is_running());
}
