//! A minimal file-backed log sink.
//!
//! A [`Logger`] is a path and a severity threshold. It decides which events are
//! recorded and what text each call leaves in the file; opening the file and
//! writing to it are left to the host, which reports whether the open succeeded
//! and carries out the returned [`Action`].

mod clock;
pub mod facade;
pub mod level;
pub mod logger;
pub mod text;

pub use facade::{init, init_with_level, AlreadyInitialized, Facade};
pub use level::Level;
pub use logger::{Action, Logger};
