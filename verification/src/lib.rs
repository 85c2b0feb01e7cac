//! A quiz-session engine for two-sided vocabulary flashcards.
//!
//! The engine owns a corpus of translation pairs, draws a working pool of
//! distinct pairs from it, picks questions without immediate repetition,
//! evaluates submitted answers under the active translation direction, and
//! runs the timed lock-and-advance cycle that follows every answer. All
//! rendering and input collection is left to a host, which drives the
//! engine through plain values: choice indices, answer texts, and a
//! monotonic clock.

pub mod direction;
pub mod errors;
pub mod evaluator;
pub mod events;
pub mod pair;
pub mod pool;
pub mod rng;
pub mod session;

pub use direction::Direction;
pub use errors::QuizError;
pub use evaluator::is_correct;
pub use events::SessionEvent;
pub use pair::Pair;
pub use pool::QuestionPool;
pub use rng::QuizRng;
pub use session::{Highlight, QuizSession, SessionState};
