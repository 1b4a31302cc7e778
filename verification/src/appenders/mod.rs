//! What the sinks decide before they touch a file or a terminal.

pub mod console;
pub mod file;
pub mod network;
pub mod rotating_file;
