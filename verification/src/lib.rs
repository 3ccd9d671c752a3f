//! Decision engine of a command-line tool that toggles performance-related
//! hardware modes (keyboard backlight brightness, fan profile, thermal
//! throttling policy) by reading and writing single-character values in
//! fixed sysfs control files.
//!
//! The library covers everything with nontrivial branching: mapping the
//! command line to an (operator, operation) pair, resolving which candidate
//! control file to act on given probe results for each path, and the
//! bidirectional codec between symbolic operation names and the
//! single-character file values. The surrounding binary performs the actual
//! filesystem probing, reading and writing, handing this library plain
//! values and executing the single action it decides on.

pub mod model;
pub mod strutil;
pub mod parse;
pub mod resolve;
pub mod codec;
