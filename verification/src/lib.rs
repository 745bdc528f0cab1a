//! A minimal logging back-end: it decides, for one record and one rendering
//! policy, which text and which colour changes go to the terminal and to the
//! log file, and leaves the writing itself to the caller.

pub mod color;
pub mod config;
pub mod level;
pub mod logger;
pub mod record;
pub mod render;

pub use crate::color::{Color, ColorChoice};
pub use crate::config::{Config, ConfigBuilder, ConfigView, LevelPadding};
pub use crate::level::{Level, LevelFilter};
pub use crate::logger::{Action, ActionView, Dispatch, DispatchView, TinyLogger, TinyLoggerView};
pub use crate::record::{Record, RecordView};
pub use crate::render::{write_args, write_level, write_location};
