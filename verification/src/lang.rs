//! The execution engine: addresses and values, memory regions, the tokenizer,
//! the dictionaries, and the virtual machine itself.

pub mod debug;
pub mod mem;
pub mod resource;
pub mod text;
pub mod tokenizer;
pub mod utility;
pub mod value;
pub mod vm;
pub mod word;
