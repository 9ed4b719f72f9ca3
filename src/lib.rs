//! A process-wide logging sink that appends one formatted text line per
//! enabled record to a file, either through a handle kept open for the
//! process lifetime or by reopening the file for every write.
//!
//! This crate holds the sink's decisions and its record format, with their
//! contracts: which setup steps each entry point takes, what each record
//! turns into, and what a flush does. The program around it performs the
//! file I/O and registers the sink with the `log` facade.
use vstd::prelude::*;

pub mod clock;
pub mod text;
pub mod laws;
pub mod line;
pub mod sink;

pub use line::{format_line, record_text, Level};
