//! A simulator for a small 16-bit, single-accumulator teaching machine:
//! a word-addressed memory, a register file, and a fetch–decode–execute
//! engine whose every step is specified and verified.
pub mod console;
pub mod cpu;
pub mod instruction;
pub mod laws;
pub mod loader;
pub mod memory;

pub use console::{parse_input, render, Output, OutputMode};
pub use cpu::{Event, CPU};
pub use instruction::{decode, Instruction};
pub use loader::{words_from_be_bytes, LoadError};
pub use memory::{Memory, MemoryError};
