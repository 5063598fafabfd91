//! A leveled logger core: severity filtering, timestamping and line
//! composition, with every decision stated as a contract.
//!
//! The library never touches the console or the file system. A log call
//! yields an [`Emission`]: the console line, and the record to append to the
//! destination when one is configured. The caller owns the streams and
//! performs the writes while it holds the logger exclusively.

pub mod clock;
pub mod level;
pub mod line;
pub mod logger;
pub mod settings;

pub use level::LogLevel;
pub use logger::{Emission, InitError, Mode, Pinelog};
pub use settings::{ConfigError, Field, Settings, Timestamp};
