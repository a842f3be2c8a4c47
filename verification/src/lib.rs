//! A CHIP-8 processor core: machine state, instruction decoding, the semantics
//! of every instruction, the frame buffer, and the fetch/execute cycle.

pub mod state;
pub mod font;
pub mod decode;
pub mod ops;
pub mod display;
pub mod step;
pub mod clock;
pub mod laws;
