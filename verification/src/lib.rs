//! An interpreter for the CHIP-8 virtual machine.
pub mod backend;
pub mod entropy;
pub mod font;
pub mod host;
pub mod instruction;
pub mod keypad;
pub mod laws;
pub mod machine;
pub mod platform;
pub mod quirks;
pub mod sprite;
pub mod state;

pub use machine::Chip8;
pub use quirks::Quirks;
