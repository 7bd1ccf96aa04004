//! The execution core of a 6502 emulator: registers and flags, the opcode map, the
//! addressing modes with their cycle costs, and the instructions, each proved against a
//! model of the processor's state.

pub mod cpu;
pub mod instruction;
pub mod laws;
pub mod ram;
pub mod state;
pub mod timing;
