//! Installs a set of replacement game files onto a console over a file
//! transfer session: the pure planning and decision logic, verified.
pub mod path;
pub mod sync;
pub mod backup;
pub mod title;
pub mod prompt;
pub mod setup;
