//! Cartridges without a mapper: 32 KiB of ROM and at most one bank of RAM in view.

use vstd::prelude::*;
use crate::cartridge::{Cartridge, CartridgeHeaderInfo, MapperType};
use crate::cartridge::mbc::{
    MBCResult, typical_ram_offset, validate, spec_validate, ram_offset, lemma_validated_sizes,
};
use crate::instance::io::{CARTRIDGE_ROM_MAIN_BANK_END, CARTRIDGE_ROM_END};
use crate::memory::Memory;

verus! {

/// A cartridge with no mapper, over its ROM and its RAM (which may be empty).
pub struct NoROM<'a> {
    rom: &'a [u8],
    ram: &'a mut [u8],
}

/// Abstract state of a cartridge without a mapper.
pub struct NoROMState {
    pub rom: Seq<u8>,
    pub ram: Seq<u8>,
}

impl NoROMState {
    pub open spec fn wf(self) -> bool {
        &&& self.rom.len() >= 0x8000
        &&& (self.ram.len() == 0 || self.ram.len() >= 0x2000)
    }

    pub open spec fn read_at(self, address: u16) -> u8 {
        if address <= 0x7FFF {
            self.rom[address as int]
        } else if self.ram.len() == 0 {
            0xFF
        } else {
            self.ram[ram_offset(address, 0)]
        }
    }

    /// Writes above 0x3FFF reach the RAM, if there is any; the others change nothing.
    pub open spec fn written(self, address: u16, data: u8) -> NoROMState {
        if address <= 0x3FFF || self.ram.len() == 0 {
            self
        } else {
            NoROMState { ram: self.ram.update(ram_offset(address, 0), data), ..self }
        }
    }
}

impl<'a> View for NoROM<'a> {
    type V = NoROMState;

    closed spec fn view(&self) -> NoROMState {
        NoROMState { rom: self.rom@, ram: self.ram@ }
    }
}

impl<'a> NoROM<'a> {
    /// A cartridge without a mapper, if the header of `rom` says so and the sizes match.
    pub fn new(rom: &'a [u8], ram: &'a mut [u8]) -> (r: MBCResult<NoROM<'a>>)
        ensures
            match r {
                Ok(m) => spec_validate(rom@, old(ram)@, MapperType::ROMOnly) is Ok && m.wf() && m@
                    == (NoROMState { rom: rom@, ram: old(ram)@ }),
                Err(e) => spec_validate(rom@, old(ram)@, MapperType::ROMOnly) == Err::<
                    CartridgeHeaderInfo,
                    _,
                >(e),
            },
            r is Err ==> final(ram)@ == old(ram)@,
    {
        match validate(rom, ram, MapperType::ROMOnly) {
            Ok(_) => {},
            Err(e) => return Err(e),
        }
        proof {
            lemma_validated_sizes(rom@, ram@, MapperType::ROMOnly);
        }
        Ok(NoROM { rom, ram })
    }
}

impl<'a> Memory for NoROM<'a> {
    open spec fn wf(&self) -> bool {
        self@.wf()
    }

    open spec fn can_read(&self, address: u16) -> bool {
        true
    }

    open spec fn read_value(&self, address: u16) -> u8 {
        self@.read_at(address)
    }

    open spec fn after_read(&self, address: u16) -> NoROMState {
        self@
    }

    open spec fn can_write(&self, address: u16, data: u8) -> bool {
        true
    }

    open spec fn after_write(&self, address: u16, data: u8) -> NoROMState {
        self@.written(address, data)
    }

    fn read(&mut self, address: u16) -> (r: u8) {
        if address <= CARTRIDGE_ROM_END {
            self.rom[address as usize]
        } else if self.ram.is_empty() {
            0xFF
        } else {
            self.ram[typical_ram_offset(address, 0)]
        }
    }

    fn write(&mut self, address: u16, data: u8) {
        if address <= CARTRIDGE_ROM_MAIN_BANK_END || self.ram.is_empty() {
            // do nothing
        } else {
            let i = typical_ram_offset(address, 0);
            self.ram[i] = data;
        }
    }
}

impl<'a> Cartridge for NoROM<'a> {
    fn rom_bank_size(&self) -> (r: Option<usize>)
        ensures
            r is None,
    {
        None
    }

    fn rom_bank(&self) -> (r: Option<usize>)
        ensures
            r is None,
    {
        None
    }

    fn rom_data(&self) -> (r: Option<&[u8]>)
        ensures
            r matches Some(s) && s@ == self@.rom,
    {
        Some(self.rom)
    }

    fn ram_bank_size(&self) -> (r: Option<usize>)
        ensures
            r is None,
    {
        None
    }

    fn ram_bank(&self) -> (r: Option<usize>)
        ensures
            r is None,
    {
        None
    }

    fn ram_data(&self) -> (r: Option<&[u8]>)
        ensures
            self@.ram.len() == 0 ==> r is None,
            self@.ram.len() != 0 ==> (r matches Some(s) && s@ == self@.ram),
    {
        if self.ram.is_empty() {
            None
        } else {
            Some(&*self.ram)
        }
    }

    fn ram_data_mut(&mut self) -> (r: Option<&mut [u8]>)
        ensures
            old(self)@.ram.len() == 0 ==> r is None && final(self)@ == old(self)@,
            old(self)@.ram.len() != 0 ==> r is Some && r.unwrap()@ == old(self)@.ram && final(self)@
                == (NoROMState { ram: final(r.unwrap())@, ..old(self)@ }),
    {
        if self.ram.is_empty() {
            None
        } else {
            Some(&mut *self.ram)
        }
    }
}

/// With RAM present, a byte written above 0x7FFF reads back; writes never change the ROM and
/// keep the state well formed.
pub proof fn law_no_rom_ram_round_trip(s: NoROMState, address: u16, data: u8)
    requires
        s.wf(),
        s.ram.len() != 0,
        address > 0x7FFF,
    ensures
        s.written(address, data).read_at(address) == data,
{
}

/// No write changes the ROM, and every write keeps the state well formed.
pub proof fn law_no_rom_write_keeps_rom(s: NoROMState, address: u16, data: u8)
    requires
        s.wf(),
    ensures
        s.written(address, data).rom == s.rom,
        s.written(address, data).wf(),
{
}

} // verus!
