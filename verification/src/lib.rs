//! A CHIP-8 interpreter core: machine state, instruction decoding and
//! execution, each operation stated against a mathematical model of the
//! machine.

pub mod state;
pub mod semantics;
pub mod draw;
pub mod instruction;
mod random;
pub mod cpu;
pub mod ops;
pub mod screen;
pub mod laws;
pub mod behaviour;
