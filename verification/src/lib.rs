//! Cycle-stepped core of a handheld console emulator: a cooperative cycle
//! scheduler, a shared system bus with its memory unit, an ARM instruction
//! decoder with a three-stage pipelined execute engine, and a scanline
//! renderer for the LCD controller.

pub mod util;
pub mod endian;
pub mod system;
pub mod scheduler;
pub mod cpu;
pub mod ppu;
pub mod memory;
pub mod machine;
