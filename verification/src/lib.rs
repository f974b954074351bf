//! Game Boy / Game Boy Color emulation core: memory devices, cartridge mappers and the
//! address decoding of the system bus.

pub mod memory;
pub mod cartridge;
pub mod instance;
mod util;
