//! A task list paired with a work/break stopwatch: the elapsed-time accounting,
//! the session state machine driven by user actions, and the persisted document.
//!
//! Instants are nanoseconds on a monotonic clock and spans are nanoseconds;
//! the caller reads the clock and hands each event its instant.

pub mod codec;
pub mod message;
pub mod session;
pub mod text;
pub mod time;

pub use codec::{get_todo, DecodeError, Document, RawDocument};
pub use message::{Action, Message};
pub use session::ToDo;
pub use text::format_duration;
pub use time::Time;
