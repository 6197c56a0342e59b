pub mod engine;
pub mod instruction;
pub mod laws;
pub mod machine;
pub mod semantics;
pub mod sprite;
mod random;

pub use instruction::{decode, Instruction};
pub use machine::{Action, Chip8, EmulationError, Event, HEIGHT, WIDTH};
