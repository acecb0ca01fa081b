//! The core of a Game Boy (DMG) emulator: the SM83 processor with its two instruction tables,
//! the memory bus, the MBC3 cartridge controller, the interrupt controller and the video unit's
//! tick interface. Each instruction's effect is stated as a spec function over `CpuView`
//! (module `semantics`) and the executable processor is proved to follow it.
use vstd::prelude::*;

pub mod convenience;
pub mod registers;
pub mod alu;
pub mod cartridge;
pub mod interrupts;
pub mod sprite;
pub mod gpu;
pub mod mmu;
pub mod semantics;
pub mod cpu;
pub mod opcodes;
pub mod ui_state;
pub mod gamepad;
pub mod gameboy;
pub mod laws;
