//! Core of an emulator for an 8-bit home computer: the 6510 instruction
//! interpreter, the raster engine of the video chip, the timer/interrupt
//! chip, and the address decoder that ties them together, each with a
//! machine-checked contract.

pub mod cia1;
pub mod debugger;
pub mod machine;
pub mod memory;
pub mod mos6510;
pub mod vic_ii;
