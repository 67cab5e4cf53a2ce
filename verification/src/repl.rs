//! Running a program from a command line: what the command line asks for,
//! and the rounds in which the virtual machine is run.

pub mod context;
pub mod exec;
