//! A terminal flashcard viewer: a deck of question/answer cards loaded from
//! comma-separated text, and the navigation state machine that steps through it.
pub mod app;
pub mod flashcard;
pub mod laws;

pub use app::App;
pub use flashcard::Flashcard;
