//! A CHIP-8 interpreter core: machine state, instruction semantics and the
//! fetch-decode-execute cycle, each stated over a mathematical model of the
//! machine and proved against it.

pub mod action;
pub mod cpu;
pub mod decode;
pub mod display;
pub mod font;
pub mod frame;
pub mod keypad;
pub mod laws;
mod random;
pub mod rom;
pub mod semantics;
pub mod state;

pub use action::{Fault, PointerAction};
pub use cpu::{Cpu, CycleState};
pub use display::color;
pub use rom::RomReader;
pub use state::CpuState;
