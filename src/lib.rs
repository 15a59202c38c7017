pub mod bus;
pub mod cpu;
pub mod ppu;
pub mod dmg;
