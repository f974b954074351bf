//! The MBC5 mapper: ROM banks selected by a 9-bit register, RAM banks, and an optional rumble
//! motor.

use vstd::prelude::*;
use crate::cartridge::{Cartridge, CartridgeHeaderInfo, MapperType};
use crate::cartridge::mbc::{
    MBCResult, TYPICAL_RAM_BANK_SIZE, typical_ram_offset, TYPICAL_ROM_BANK_SIZE, typical_rom_offset,
    validate, spec_validate, rom_offset, ram_offset, lemma_validated_sizes,
};
use crate::instance::io::CARTRIDGE_ROM_END;
use crate::memory::Memory;

verus! {

/// An MBC5 cartridge over its ROM and its RAM (which may be empty).
pub struct MBC5<'a> {
    rom: &'a [u8],
    ram: &'a mut [u8],
    ram_enabled: bool,
    rom_bank: usize,
    ram_bank: usize,
    rumble: Option<bool>,
    rom_bank_count: usize,
    ram_bank_count: usize,
}

/// Abstract state of an MBC5 cartridge.
pub struct MBC5State {
    pub rom: Seq<u8>,
    pub ram: Seq<u8>,
    pub ram_enabled: bool,
    pub rom_bank: usize,
    pub ram_bank: usize,
    /// `None` without a rumble motor, else whether the motor runs.
    pub rumble: Option<bool>,
    pub rom_bank_count: usize,
    pub ram_bank_count: usize,
}

/// The bit of the RAM bank register that drives the rumble motor, where there is one.
pub const RUMBLE_BIT: u8 = 8;

impl MBC5State {
    pub open spec fn wf(self) -> bool {
        &&& 2 <= self.rom_bank_count <= 512
        &&& self.rom_bank_count & (self.rom_bank_count - 1) as usize == 0
        &&& self.rom.len() == 0x4000 * self.rom_bank_count
        &&& self.rom_bank < self.rom_bank_count
        &&& self.ram_bank_count <= 16
        &&& self.ram.len() == 0x2000 * self.ram_bank_count
        &&& (self.ram_bank < self.ram_bank_count || self.ram_bank == 0)
        &&& (self.ram_enabled ==> self.ram.len() > 0)
    }

    pub open spec fn read_at(self, address: u16) -> u8 {
        if address <= 0x7FFF {
            self.rom[rom_offset(address, 0, self.rom_bank as int)]
        } else if self.ram_enabled {
            self.ram[ram_offset(address, self.ram_bank as int)]
        } else {
            0xFF
        }
    }

    /// 0x0000-0x1FFF: RAM enable (low half-byte 0xA, with RAM present) and disable (0);
    /// 0x2000-0x2FFF: low bits of the ROM bank; 0x3000-0x3FFF: the ninth bit of the ROM bank;
    /// both masked by the bank count less one; 0x4000-0x5FFF: the RAM bank (without the rumble
    /// bit where there is a motor) and the motor; 0x6000-0x7FFF: nothing; above: enabled RAM.
    pub open spec fn written(self, address: u16, data: u8) -> MBC5State {
        if address <= 0x1FFF {
            let d = data % 16;
            if d == 0xA && self.ram.len() > 0 {
                MBC5State { ram_enabled: true, ..self }
            } else if d == 0 {
                MBC5State { ram_enabled: false, ..self }
            } else {
                self
            }
        } else if address <= 0x2FFF {
            MBC5State {
                rom_bank: (self.rom_bank & 0x100) | ((data as usize) & (self.rom_bank_count - 1) as usize),
                ..self
            }
        } else if address <= 0x3FFF {
            MBC5State {
                rom_bank: (self.rom_bank & 0x0FF) | (((data as usize) << 8usize) & (self.rom_bank_count
                    - 1) as usize),
                ..self
            }
        } else if address <= 0x5FFF {
            let bank_data = if self.rumble is Some {
                data & !RUMBLE_BIT
            } else {
                data
            };
            MBC5State {
                ram_bank: if self.ram.len() > 0 {
                    (bank_data as usize) & (self.ram_bank_count - 1) as usize
                } else {
                    self.ram_bank
                },
                rumble: match self.rumble {
                    Some(_) => Some((data & RUMBLE_BIT) != 0),
                    None => None,
                },
                ..self
            }
        } else if address <= 0x7FFF {
            self
        } else if self.ram_enabled {
            MBC5State {
                ram: self.ram.update(ram_offset(address, self.ram_bank as int), data),
                ..self
            }
        } else {
            self
        }
    }
}

impl<'a> View for MBC5<'a> {
    type V = MBC5State;

    closed spec fn view(&self) -> MBC5State {
        MBC5State {
            rom: self.rom@,
            ram: self.ram@,
            ram_enabled: self.ram_enabled,
            rom_bank: self.rom_bank,
            ram_bank: self.ram_bank,
            rumble: self.rumble,
            rom_bank_count: self.rom_bank_count,
            ram_bank_count: self.ram_bank_count,
        }
    }
}

/// The bank counts that a header allows are powers of two.
proof fn lemma_bank_count_power_of_two(c: usize)
    by (bit_vector)
    requires
        c == 2 || c == 4 || c == 8 || c == 16 || c == 32 || c == 64 || c == 128 || c == 256 || c
            == 512,
    ensures
        c & (c - 1) as usize == 0,
{
}

/// A write of the low eight bits of the ROM bank keeps the bank below a power-of-two count of
/// at most 512.
proof fn lemma_low_bank_write(b: usize, x: usize, c: usize)
    by (bit_vector)
    requires
        2 <= c <= 512,
        c & (c - 1) as usize == 0,
        b < c,
    ensures
        ((b & 0x100) | (x & (c - 1) as usize)) < c,
{
}

/// A write of the ninth bit of the ROM bank keeps the bank below a power-of-two count of at
/// most 512.
proof fn lemma_high_bank_write(b: usize, x: usize, c: usize)
    by (bit_vector)
    requires
        2 <= c <= 512,
        c & (c - 1) as usize == 0,
        b < c,
    ensures
        ((b & 0x0FF) | ((x << 8usize) & (c - 1) as usize)) < c,
{
}

/// The two bank register writes as arithmetic on the bank number, for a power-of-two bank count
/// of at most 512: the low write gives the data modulo the count (below 256 banks) or replaces
/// the low eight bits (512 banks); the high write changes nothing (below 256 banks) or sets the
/// ninth bit to the data's lowest bit (512 banks).
proof fn lemma_bank_write_arithmetic(b: usize, x: usize, c: usize)
    by (bit_vector)
    requires
        2 <= c <= 512,
        c & (c - 1) as usize == 0,
        b < c,
        x < 256,
    ensures
        c <= 256 ==> ((b & 0x100) | (x & (c - 1) as usize)) == x % c,
        c == 512 ==> ((b & 0x100) | (x & (c - 1) as usize)) == (b / 256) * 256 + x,
        c <= 256 ==> ((b & 0x0FF) | ((x << 8usize) & (c - 1) as usize)) == b,
        c == 512 ==> ((b & 0x0FF) | ((x << 8usize) & (c - 1) as usize)) == (x % 2) * 256 + b
            % 256,
{
}

/// The rumble bit of the RAM bank register as arithmetic: clearing bit 3 removes 8 where it is
/// set, and bit 3 is set exactly when the data's eighths are odd.
proof fn lemma_rumble_bit(x: u8)
    by (bit_vector)
    ensures
        x & !8u8 == x % 8 + 16 * (x / 16),
        (x & 8u8 != 0) == ((x / 8) % 2 == 1),
{
}

/// Masking by a power-of-two bank count of at most 16, less one, is the remainder.
proof fn lemma_ram_bank_mask(y: usize, c: usize)
    by (bit_vector)
    ensures
        c == 1 ==> y & (c - 1) as usize == y % 1,
        c == 2 ==> y & (c - 1) as usize == y % 2,
        c == 4 ==> y & (c - 1) as usize == y % 4,
        c == 8 ==> y & (c - 1) as usize == y % 8,
        c == 16 ==> y & (c - 1) as usize == y % 16,
{
}

proof fn lemma_masked_below(x: usize, m: usize)
    by (bit_vector)
    ensures
        x & m <= m,
{
}

impl<'a> MBC5<'a> {
    /// An MBC5 cartridge, if the header of `rom` names MBC5 and the sizes match; it has a
    /// rumble motor where the header says so.
    pub fn new(rom: &'a [u8], ram: &'a mut [u8]) -> (r: MBCResult<MBC5<'a>>)
        ensures
            match r {
                Ok(m) => {
                    &&& spec_validate(rom@, old(ram)@, MapperType::MBC5) is Ok
                    &&& m.wf()
                    &&& m@ == MBC5State {
                        rom: rom@,
                        ram: old(ram)@,
                        ram_enabled: false,
                        rom_bank: 1,
                        ram_bank: 0,
                        rumble: if spec_validate(rom@, old(ram)@, MapperType::MBC5)->Ok_0.has_rumble {
                            Some(false)
                        } else {
                            None
                        },
                        rom_bank_count: (rom@.len() / 0x4000) as usize,
                        ram_bank_count: (old(ram)@.len() / 0x2000) as usize,
                    }
                },
                Err(e) => spec_validate(rom@, old(ram)@, MapperType::MBC5) == Err::<
                    CartridgeHeaderInfo,
                    _,
                >(e),
            },
            r is Err ==> final(ram)@ == old(ram)@,
    {
        let info = match validate(rom, ram, MapperType::MBC5) {
            Ok(info) => info,
            Err(e) => return Err(e),
        };
        proof {
            lemma_validated_sizes(rom@, ram@, MapperType::MBC5);
            lemma_bank_count_power_of_two(rom.len() / TYPICAL_ROM_BANK_SIZE);
        }
        Ok(
            MBC5 {
                ram_enabled: false,
                rom_bank: 1,
                rom_bank_count: rom.len() / TYPICAL_ROM_BANK_SIZE,
                ram_bank_count: ram.len() / TYPICAL_RAM_BANK_SIZE,
                ram_bank: 0,
                rom,
                ram,
                rumble: if info.has_rumble {
                    Some(false)
                } else {
                    None
                },
            },
        )
    }

    /// Whether the rumble motor runs, or `None` without a motor.
    pub fn rumble_on(&self) -> (r: Option<bool>)
        ensures
            r == self@.rumble,
    {
        self.rumble
    }
}

impl<'a> Memory for MBC5<'a> {
    open spec fn wf(&self) -> bool {
        self@.wf()
    }

    open spec fn can_read(&self, address: u16) -> bool {
        true
    }

    open spec fn read_value(&self, address: u16) -> u8 {
        self@.read_at(address)
    }

    open spec fn after_read(&self, address: u16) -> MBC5State {
        self@
    }

    open spec fn can_write(&self, address: u16, data: u8) -> bool {
        true
    }

    open spec fn after_write(&self, address: u16, data: u8) -> MBC5State {
        self@.written(address, data)
    }

    fn read(&mut self, address: u16) -> (r: u8) {
        if address <= CARTRIDGE_ROM_END {
            self.rom[typical_rom_offset(address, self.rom_bank)]
        } else if self.ram_enabled {
            self.ram[typical_ram_offset(address, self.ram_bank)]
        } else {
            0xFF
        }
    }

    fn write(&mut self, address: u16, data: u8) {
        if address <= 0x1FFF {
            let d = data & 0xF;
            assert(data & 0xF == data % 16) by (bit_vector);
            if d == 0xA && !self.ram.is_empty() {
                self.ram_enabled = true;
            } else if d == 0x0 {
                self.ram_enabled = false;
            }
        } else if address <= 0x2FFF {
            proof {
                lemma_low_bank_write(self.rom_bank, data as usize, self.rom_bank_count);
            }
            self.rom_bank &= 0x100;
            self.rom_bank |= (data as usize) & (self.rom_bank_count - 1);
        } else if address <= 0x3FFF {
            proof {
                lemma_high_bank_write(self.rom_bank, data as usize, self.rom_bank_count);
            }
            self.rom_bank &= 0x0FF;
            self.rom_bank |= ((data as usize) << 8) & (self.rom_bank_count - 1);
        } else if address <= 0x5FFF {
            // NOTE: If rumble is present, the third bit is unavailable for RAM and is instead
            // diverted into controlling the motor.
            if !self.ram.is_empty() {
                let bank_data = if self.rumble.is_some() {
                    data & !RUMBLE_BIT
                } else {
                    data
                };
                proof {
                    lemma_masked_below(bank_data as usize, (self.ram_bank_count - 1) as usize);
                }
                self.ram_bank = (bank_data as usize) & (self.ram_bank_count - 1);
            }
            if self.rumble.is_some() {
                self.rumble = Some((data & RUMBLE_BIT) != 0);
            }
        } else if address <= 0x7FFF {
            // do nothing
        } else if self.ram_enabled {
            let i = typical_ram_offset(address, self.ram_bank);
            self.ram[i] = data;
        }
    }
}

impl<'a> Cartridge for MBC5<'a> {
    fn rom_bank_size(&self) -> (r: Option<usize>)
        ensures
            r == Some(0x4000usize),
    {
        Some(TYPICAL_ROM_BANK_SIZE)
    }

    fn rom_bank(&self) -> (r: Option<usize>)
        ensures
            r == Some(self@.rom_bank),
    {
        Some(self.rom_bank)
    }

    fn rom_data(&self) -> (r: Option<&[u8]>)
        ensures
            r matches Some(s) && s@ == self@.rom,
    {
        Some(self.rom)
    }

    fn ram_bank_size(&self) -> (r: Option<usize>)
        ensures
            r == Some(0x2000usize),
    {
        Some(TYPICAL_RAM_BANK_SIZE)
    }

    fn ram_bank(&self) -> (r: Option<usize>)
        ensures
            r == (if self@.ram.len() == 0 {
                None
            } else {
                Some(self@.ram_bank)
            }),
    {
        if self.ram.is_empty() {
            None
        } else {
            Some(self.ram_bank)
        }
    }

    fn ram_data(&self) -> (r: Option<&[u8]>)
        ensures
            self@.ram.len() == 0 ==> r is None,
            self@.ram.len() != 0 ==> (r matches Some(s) && s@ == self@.ram),
    {
        if self.ram.is_empty() {
            None
        } else {
            Some(&*self.ram)
        }
    }

    fn ram_data_mut(&mut self) -> (r: Option<&mut [u8]>)
        ensures
            old(self)@.ram.len() == 0 ==> r is None && final(self)@ == old(self)@,
            old(self)@.ram.len() != 0 ==> r is Some && r.unwrap()@ == old(self)@.ram && final(self)@
                == (MBC5State { ram: final(r.unwrap())@, ..old(self)@ }),
    {
        if self.ram.is_empty() {
            None
        } else {
            Some(&mut *self.ram)
        }
    }
}

/// With RAM enabled, a byte written above 0x7FFF reads back.
pub proof fn law_mbc5_ram_round_trip(s: MBC5State, address: u16, data: u8)
    requires
        s.wf(),
        s.ram_enabled,
        address > 0x7FFF,
    ensures
        s.written(address, data).read_at(address) == data,
{
}

/// No write changes the ROM, and every write keeps the state well formed (so the ROM bank
/// stays among the banks that exist).
pub proof fn law_mbc5_write_keeps_rom(s: MBC5State, address: u16, data: u8)
    requires
        s.wf(),
    ensures
        s.written(address, data).rom == s.rom,
        s.written(address, data).wf(),
{
    lemma_low_bank_write(s.rom_bank, data as usize, s.rom_bank_count);
    lemma_high_bank_write(s.rom_bank, data as usize, s.rom_bank_count);
    if s.ram.len() > 0 {
        let bd = (if s.rumble is Some { data & !RUMBLE_BIT } else { data }) as usize;
        lemma_masked_below(bd, (s.ram_bank_count - 1) as usize);
    }
}

/// Writing 0x0A to 0x0000-0x1FFF enables RAM when there is RAM, and writing 0x00 there
/// disables it.
pub proof fn law_mbc5_ram_enable(s: MBC5State, address: u16)
    requires
        s.wf(),
        address <= 0x1FFF,
    ensures
        s.ram.len() > 0 ==> s.written(address, 0x0A).ram_enabled,
        !s.written(address, 0x00).ram_enabled,
{
}

/// A write of `data` to 0x2000-0x2FFF sets the low eight bits of the ROM bank: with at most 256
/// banks the bank becomes `data` modulo the bank count, with 512 banks the ninth bit stays. A
/// write to 0x3000-0x3FFF sets the ninth bit, which only 512 banks have. After the low write,
/// 0x4000-0x7FFF reads the selected bank of the ROM.
pub proof fn law_mbc5_rom_bank_select(s: MBC5State, low: u16, high: u16, window: u16, data: u8)
    requires
        s.wf(),
        0x2000 <= low <= 0x2FFF,
        0x3000 <= high <= 0x3FFF,
        0x4000 <= window <= 0x7FFF,
    ensures
        s.rom_bank_count <= 256 ==> s.written(low, data).rom_bank == data as int
            % s.rom_bank_count as int,
        s.rom_bank_count == 512 ==> s.written(low, data).rom_bank == (s.rom_bank / 256) * 256
            + data,
        s.rom_bank_count <= 256 ==> s.written(high, data).rom_bank == s.rom_bank,
        s.rom_bank_count == 512 ==> s.written(high, data).rom_bank == (data % 2) * 256 + s.rom_bank
            % 256,
        s.rom_bank_count <= 256 ==> s.written(low, data).read_at(window) == s.rom[0x4000 * (
        data as int % s.rom_bank_count as int) + (window - 0x4000)],
{
    lemma_bank_write_arithmetic(s.rom_bank, data as usize, s.rom_bank_count);
    lemma_low_bank_write(s.rom_bank, data as usize, s.rom_bank_count);
}

/// A write to 0x4000-0x5FFF selects the RAM bank by the data modulo the bank count, where a
/// cartridge with a rumble motor leaves bit 3 out of the bank and runs the motor exactly when
/// bit 3 is set; 0xA000-0xBFFF, when enabled, then reads that bank of the RAM.
pub proof fn law_mbc5_ram_bank_select(s: MBC5State, select: u16, window: u16, data: u8)
    requires
        s.wf(),
        s.ram.len() > 0,
        s.ram_bank_count == 1 || s.ram_bank_count == 2 || s.ram_bank_count == 4
            || s.ram_bank_count == 8 || s.ram_bank_count == 16,
        0x4000 <= select <= 0x5FFF,
        0xA000 <= window <= 0xBFFF,
    ensures
        s.rumble is None ==> s.written(select, data).ram_bank == data as int
            % s.ram_bank_count as int,
        s.rumble is Some ==> s.written(select, data).ram_bank == (data % 8 + 16 * (data / 16))
            % s.ram_bank_count as int,
        s.rumble is Some ==> s.written(select, data).rumble == Some((data / 8) % 2 == 1),
        s.rumble is None ==> s.written(select, data).rumble is None,
        s.ram_enabled ==> s.written(select, data).read_at(window) == s.ram[0x2000 * s.written(
            select,
            data,
        ).ram_bank + (window - 0xA000)],
{
    lemma_rumble_bit(data);
    lemma_ram_bank_mask(data as usize, s.ram_bank_count);
    lemma_ram_bank_mask((data & !RUMBLE_BIT) as usize, s.ram_bank_count);
}

} // verus!
