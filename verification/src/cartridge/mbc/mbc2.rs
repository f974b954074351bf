//! The MBC2 mapper: up to 16 ROM banks and 512 half-bytes of built-in RAM.

use vstd::prelude::*;
use crate::cartridge::{Cartridge, MapperType};
use crate::cartridge::mbc::{
    MBCResult, TYPICAL_ROM_BANK_SIZE, typical_rom_offset, validate, spec_validate, rom_offset,
    lemma_validated_sizes, is_header_rom_size,
};
use crate::instance::io::{
    CARTRIDGE_RAM_END, CARTRIDGE_RAM_START, CARTRIDGE_ROM_END, CARTRIDGE_ROM_MAIN_BANK_END,
};
use crate::memory::Memory;
use crate::util::{clamp_usize, clamped};

verus! {

/// An MBC2 cartridge over its ROM and its 256 bytes of RAM (two half-bytes per byte).
pub struct MBC2<'a> {
    rom: &'a [u8],
    ram: &'a mut [u8; 0x100],
    ram_enabled: bool,
    rom_bank: usize,
}

/// Abstract state of an MBC2 cartridge.
pub struct MBC2State {
    pub rom: Seq<u8>,
    pub ram: Seq<u8>,
    pub ram_enabled: bool,
    pub rom_bank: usize,
}

/// Index into MBC2 RAM of the half-byte at `address`: two half-bytes share a byte.
pub open spec fn mbc2_ram_index(address: u16) -> int {
    ((address / 2) % 0x100) as int
}

/// The shift that selects the half-byte at `address` within its byte: 0 at even addresses
/// (the low half) and 4 at odd ones (the high half).
pub open spec fn mbc2_shift(address: u16) -> int {
    4 * (address % 2) as int
}

/// The half-byte of `byte` that `address` selects.
pub open spec fn nibble_at(byte: u8, address: u16) -> u8 {
    if address % 2 == 0 {
        byte % 16
    } else {
        byte / 16
    }
}

/// `byte` with the half-byte that `address` selects replaced by the low half of `data`, the
/// other half kept.
pub open spec fn with_nibble_at(byte: u8, address: u16, data: u8) -> u8 {
    if address % 2 == 0 {
        (byte - byte % 16 + data % 16) as u8
    } else {
        (byte % 16 + 16 * (data % 16)) as u8
    }
}

impl MBC2State {
    pub open spec fn wf(self) -> bool {
        &&& is_header_rom_size(self.rom.len() as int)
        &&& self.ram.len() == 0x100
        &&& 1 <= self.rom_bank < self.rom.len() / 0x4000
    }

    pub open spec fn read_at(self, address: u16) -> u8 {
        if address <= 0x7FFF {
            self.rom[rom_offset(address, 0, self.rom_bank as int)]
        } else if self.ram_enabled {
            nibble_at(self.ram[mbc2_ram_index(address)], address)
        } else {
            0xFF
        }
    }

    /// Writes to 0x0000-0x3FFF set the RAM enable (bit 8 of the address clear) or the ROM bank
    /// (bit 8 set, clamped to the banks that exist); writes to enabled RAM at 0xA000-0xBFFF set
    /// the half-byte that the address selects.
    pub open spec fn written(self, address: u16, data: u8) -> MBC2State {
        if address <= 0x3FFF {
            if (address / 0x100) % 2 == 0 {
                MBC2State { ram_enabled: data == 0xA, ..self }
            } else {
                MBC2State {
                    rom_bank: clamped((data % 16) as int, 1, (self.rom.len() / 0x4000 - 1) as int) as usize,
                    ..self
                }
            }
        } else if self.ram_enabled && 0xA000 <= address <= 0xBFFF {
            let i = mbc2_ram_index(address);
            MBC2State { ram: self.ram.update(i, with_nibble_at(self.ram[i], address, data)), ..self }
        } else {
            self
        }
    }
}

impl<'a> View for MBC2<'a> {
    type V = MBC2State;

    closed spec fn view(&self) -> MBC2State {
        MBC2State {
            rom: self.rom@,
            ram: self.ram@,
            ram_enabled: self.ram_enabled,
            rom_bank: self.rom_bank,
        }
    }
}

impl<'a> MBC2<'a> {
    /// An MBC2 cartridge, if the header of `rom` names MBC2 and the sizes match.
    pub fn new(rom: &'a [u8], ram: &'a mut [u8; 0x100]) -> (r: MBCResult<MBC2<'a>>)
        ensures
            match r {
                Ok(m) => spec_validate(rom@, old(ram)@, MapperType::MBC2) is Ok && m.wf() && m@
                    == (MBC2State { rom: rom@, ram: old(ram)@, ram_enabled: false, rom_bank: 1 }),
                Err(e) => spec_validate(rom@, old(ram)@, MapperType::MBC2) == Err::<
                    crate::cartridge::CartridgeHeaderInfo,
                    _,
                >(e),
            },
            r is Err ==> final(ram)@ == old(ram)@,
    {
        match validate(rom, ram.as_slice(), MapperType::MBC2) {
            Ok(_) => {},
            Err(e) => return Err(e),
        }
        proof {
            lemma_validated_sizes(rom@, ram@, MapperType::MBC2);
        }
        Ok(MBC2 { rom, ram, ram_enabled: false, rom_bank: 1 })
    }

    /// Returns the index of the byte that holds the half-byte at `address`, and how much to
    /// shift the byte.
    fn get_sram_byte(&self, address: u16) -> (r: (usize, u8))
        ensures
            r.0 == mbc2_ram_index(address),
            r.1 == mbc2_shift(address),
    {
        let a = address as usize;
        assert(((a >> 1) & 0xFF) == (a / 2) % 0x100) by (bit_vector);
        assert(((address & 1) << 2) == 4 * (address % 2)) by (bit_vector);
        (((address as usize) >> 1) & 0xFF, ((address & 1) << 2) as u8)
    }
}

impl<'a> Memory for MBC2<'a> {
    open spec fn wf(&self) -> bool {
        self@.wf()
    }

    open spec fn can_read(&self, address: u16) -> bool {
        true
    }

    open spec fn read_value(&self, address: u16) -> u8 {
        self@.read_at(address)
    }

    open spec fn after_read(&self, address: u16) -> MBC2State {
        self@
    }

    open spec fn can_write(&self, address: u16, data: u8) -> bool {
        true
    }

    open spec fn after_write(&self, address: u16, data: u8) -> MBC2State {
        self@.written(address, data)
    }

    fn read(&mut self, address: u16) -> (r: u8) {
        if address <= CARTRIDGE_ROM_END {
            self.rom[typical_rom_offset(address, self.rom_bank)]
        } else if self.ram_enabled {
            let (i, shift) = self.get_sram_byte(address);
            let byte = self.ram[i];
            assert((byte >> 0u8) & 0xF == byte % 16) by (bit_vector);
            assert((byte >> 4u8) & 0xF == byte / 16) by (bit_vector);
            (byte >> shift) & 0xF
        } else {
            0xFF
        }
    }

    fn write(&mut self, address: u16, data: u8) {
        if address <= CARTRIDGE_ROM_MAIN_BANK_END {
            if (address & 0x100) == 0 {
                assert((address & 0x100) == 0 <==> (address / 0x100) % 2 == 0) by (bit_vector);
                self.ram_enabled = data == 0xA;
            } else {
                assert((address & 0x100) == 0 <==> (address / 0x100) % 2 == 0) by (bit_vector);
                let d = data as usize;
                assert((d & 0xF) == d % 16) by (bit_vector);
                self.rom_bank = clamp_usize(
                    (data as usize) & 0xF,
                    1,
                    self.rom.len() / TYPICAL_ROM_BANK_SIZE - 1,
                );
            }
        } else if self.ram_enabled && CARTRIDGE_RAM_START <= address && address <= CARTRIDGE_RAM_END {
            let (i, shift) = self.get_sram_byte(address);
            let byte = self.ram[i];
            assert((byte & !(0xFu8 << 0u8)) | ((data & 0xF) << 0u8) == byte - byte % 16 + data % 16)
                by (bit_vector);
            assert((byte & !(0xFu8 << 4u8)) | ((data & 0xF) << 4u8) == byte % 16 + 16 * (data % 16))
                by (bit_vector);
            self.ram[i] = (byte & !(0xF << shift)) | ((data & 0xF) << shift);
        }
    }
}

impl<'a> Cartridge for MBC2<'a> {
    fn rom_bank_size(&self) -> (r: Option<usize>)
        ensures
            r == Some(0x4000usize),
    {
        Some(TYPICAL_ROM_BANK_SIZE)
    }

    fn rom_data(&self) -> (r: Option<&[u8]>)
        ensures
            r matches Some(s) && s@ == self@.rom,
    {
        Some(self.rom)
    }

    fn ram_data(&self) -> (r: Option<&[u8]>)
        ensures
            r matches Some(s) && s@ == self@.ram,
    {
        Some(self.ram.as_slice())
    }

    fn ram_data_mut(&mut self) -> (r: Option<&mut [u8]>)
        ensures
            r is Some,
            r.unwrap()@ == old(self)@.ram,
            final(self)@ == (MBC2State { ram: final(r.unwrap())@, ..old(self)@ }),
    {
        Some(&mut *self.ram)
    }
}

/// RAM is 512 half-byte cells (the address modulo 0x200 selects one): with RAM enabled, a
/// half-byte written at any address of 0xA000-0xBFFF reads back there as the low half of the
/// data, and every other cell keeps its value.
pub proof fn law_mbc2_ram_round_trip(s: MBC2State, address: u16, other: u16, data: u8)
    requires
        s.wf(),
        s.ram_enabled,
        0xA000 <= address <= 0xBFFF,
        0xA000 <= other <= 0xBFFF,
    ensures
        s.written(address, data).read_at(address) == data % 16,
        other % 0x200 != address % 0x200 ==> s.written(address, data).read_at(other) == s.read_at(
            other,
        ),
{
    let i = mbc2_ram_index(address);
    let j = mbc2_ram_index(other);
    let b = s.ram[i];
    if i == j && other % 0x200 != address % 0x200 {
        assert(other % 2 != address % 2);
    }
}

/// Writing to 0x0000-0x3FFF with bit 8 of the address clear enables RAM exactly when the data
/// is 0x0A, and changes nothing else.
pub proof fn law_mbc2_ram_enable(s: MBC2State, address: u16, data: u8)
    requires
        s.wf(),
        address <= 0x3FFF,
        (address / 0x100) % 2 == 0,
    ensures
        s.written(address, data) == (MBC2State { ram_enabled: data == 0x0A, ..s }),
{
}

/// No write changes the ROM, and every write keeps the state well formed.
pub proof fn law_mbc2_write_keeps_rom(s: MBC2State, address: u16, data: u8)
    requires
        s.wf(),
    ensures
        s.written(address, data).rom == s.rom,
        s.written(address, data).wf(),
{
}

/// Writing to 0x0000-0x3FFF with bit 8 of the address set selects the ROM bank by the low
/// half-byte of the data: bank 0 selects bank 1, and a bank that exists is selected as written,
/// so that 0x4000-0x7FFF then reads that bank of the ROM.
pub proof fn law_mbc2_rom_bank_select(s: MBC2State, address: u16, window: u16, data: u8)
    requires
        s.wf(),
        address <= 0x3FFF,
        (address / 0x100) % 2 == 1,
        0x4000 <= window <= 0x7FFF,
    ensures
        data % 16 == 0 ==> s.written(address, data).rom_bank == 1,
        1 <= data % 16 < s.rom.len() / 0x4000 ==> s.written(address, data).rom_bank == data % 16,
        1 <= data % 16 < s.rom.len() / 0x4000 ==> s.written(address, data).read_at(window)
            == s.rom[0x4000 * (data % 16) + (window - 0x4000)],
{
}

} // verus!
