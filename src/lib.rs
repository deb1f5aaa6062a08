
pub mod clock;
pub mod gamepad;
pub mod oam;
pub mod timer;
pub mod bus;
pub mod alu;
pub mod tables;
pub mod cpu;
pub mod exec;
pub mod ppu;
pub mod emu;
