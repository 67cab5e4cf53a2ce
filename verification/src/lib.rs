//! A runtime for a small concatenative, stack-based language.
//!
//! A program is a stream of whitespace-separated tokens. The virtual machine
//! either interprets each token or compiles it into the body of a word.

pub mod driver;
pub mod lang;
pub mod primitive;
pub mod repl;
