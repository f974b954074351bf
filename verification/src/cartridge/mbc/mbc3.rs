//! The MBC3 mapper: up to 128 ROM banks, four RAM banks and an optional real-time clock whose
//! registers take the place of RAM when selected.

use vstd::prelude::*;
use crate::cartridge::{Cartridge, CartridgeHeaderInfo, MapperType};
use crate::cartridge::mbc::{
    CartridgeLoadError, MBCResult, TYPICAL_RAM_BANK_SIZE, typical_ram_offset, TYPICAL_ROM_BANK_SIZE,
    typical_rom_offset, validate, spec_validate, rom_offset, ram_offset, lemma_validated_sizes, is_header_rom_size,
};
use crate::instance::io::CARTRIDGE_ROM_END;
use crate::memory::Memory;
use crate::util::{clamp_u8, clamped};

verus! {

/// An MBC3 cartridge over its ROM and its RAM (which may be empty).
pub struct MBC3<'a> {
    rom: &'a [u8],
    ram: &'a mut [u8],
    ram_enabled: bool,
    rom_bank: usize,
    ram_mode: MBC3RAMMode,
    latched: bool,
    rtc: Option<RTCData>,
    latched_rtc: Option<RTCData>,
}

/// The registers of the real-time clock.
#[derive(Copy, Clone)]
pub struct RTCData {
    pub seconds: u8,
    pub minutes: u8,
    pub hours: u8,
    pub days_low: u8,
    pub flags: u8,
}

/// A clock whose registers are all zero.
pub open spec fn rtc_zero() -> RTCData {
    RTCData { seconds: 0, minutes: 0, hours: 0, days_low: 0, flags: 0 }
}

impl Default for RTCData {
    fn default() -> (r: Self)
        ensures
            r == rtc_zero(),
    {
        RTCData { seconds: 0, minutes: 0, hours: 0, days_low: 0, flags: 0 }
    }
}

/// What the window at 0xA000-0xBFFF shows: a RAM bank or one register of the clock.
#[derive(Copy, Clone)]
pub enum MBC3RAMMode {
    RAMBank(usize),
    RTCSeconds,
    RTCMinutes,
    RTCHours,
    RTCDaysLow,
    RTCFlags,
}

/// Abstract state of an MBC3 cartridge.
pub struct MBC3State {
    pub rom: Seq<u8>,
    pub ram: Seq<u8>,
    pub ram_enabled: bool,
    pub rom_bank: usize,
    pub ram_mode: MBC3RAMMode,
    pub latched: bool,
    pub rtc: Option<RTCData>,
    pub latched_rtc: Option<RTCData>,
}

/// The register of `rtc` that `mode` selects (for a clock mode).
pub open spec fn rtc_register(rtc: RTCData, mode: MBC3RAMMode) -> u8 {
    match mode {
        MBC3RAMMode::RTCSeconds => rtc.seconds,
        MBC3RAMMode::RTCMinutes => rtc.minutes,
        MBC3RAMMode::RTCHours => rtc.hours,
        MBC3RAMMode::RTCDaysLow => rtc.days_low,
        MBC3RAMMode::RTCFlags => rtc.flags,
        MBC3RAMMode::RAMBank(_) => 0xFF,
    }
}

/// `rtc` with the register that `mode` selects set to `data`.
pub open spec fn rtc_with_register(rtc: RTCData, mode: MBC3RAMMode, data: u8) -> RTCData {
    match mode {
        MBC3RAMMode::RTCSeconds => RTCData { seconds: data, ..rtc },
        MBC3RAMMode::RTCMinutes => RTCData { minutes: data, ..rtc },
        MBC3RAMMode::RTCHours => RTCData { hours: data, ..rtc },
        MBC3RAMMode::RTCDaysLow => RTCData { days_low: data, ..rtc },
        MBC3RAMMode::RTCFlags => RTCData { flags: data, ..rtc },
        MBC3RAMMode::RAMBank(_) => rtc,
    }
}

/// The window mode that a write of `data` to 0x4000-0x5FFF selects, or `None` when it keeps the
/// current one: RAM banks 0-3, and with a clock also its registers at 0x08-0x0C.
pub open spec fn mbc3_mode_for(data: u8, has_rtc: bool) -> Option<MBC3RAMMode> {
    if data < 4 {
        Some(MBC3RAMMode::RAMBank(data as usize))
    } else if !has_rtc {
        None
    } else if data == 0x08 {
        Some(MBC3RAMMode::RTCSeconds)
    } else if data == 0x09 {
        Some(MBC3RAMMode::RTCMinutes)
    } else if data == 0x0A {
        Some(MBC3RAMMode::RTCHours)
    } else if data == 0x0B {
        Some(MBC3RAMMode::RTCDaysLow)
    } else if data == 0x0C {
        Some(MBC3RAMMode::RTCFlags)
    } else {
        None
    }
}

impl MBC3State {
    pub open spec fn wf(self) -> bool {
        &&& is_header_rom_size(self.rom.len() as int)
        &&& 1 <= self.rom_bank < self.rom.len() / 0x4000
        &&& (self.ram.len() == 0 || self.ram.len() / 0x2000 == 4)
        &&& match self.ram_mode {
            MBC3RAMMode::RAMBank(n) => n < 4,
            _ => self.rtc is Some,
        }
    }

    pub open spec fn read_at(self, address: u16) -> u8 {
        if address <= 0x7FFF {
            self.rom[rom_offset(address, 0, self.rom_bank as int)]
        } else if self.ram_enabled {
            match self.ram_mode {
                MBC3RAMMode::RAMBank(n) => if self.ram.len() == 0 {
                    0xFF
                } else {
                    self.ram[ram_offset(address, n as int)]
                },
                _ => match self.latched_rtc {
                    Some(latched) => rtc_register(latched, self.ram_mode),
                    None => 0xFF,
                },
            }
        } else {
            0xFF
        }
    }

    /// 0x0000-0x1FFF: RAM enable (0x0A, with RAM or a clock present) and disable (0);
    /// 0x2000-0x3FFF: the ROM bank (seven bits, clamped to the banks that exist);
    /// 0x4000-0x5FFF: what the RAM window shows; 0x6000-0x7FFF: writing 0 then 1 latches the
    /// clock; above: the RAM bank or the clock register in view, when enabled.
    pub open spec fn written(self, address: u16, data: u8) -> MBC3State {
        if address <= 0x1FFF {
            if data == 0xA && (self.ram.len() != 0 || self.rtc is Some) {
                MBC3State { ram_enabled: true, ..self }
            } else if data == 0 {
                MBC3State { ram_enabled: false, ..self }
            } else {
                self
            }
        } else if address <= 0x3FFF {
            MBC3State {
                rom_bank: clamped(
                    (data % 128) as int,
                    1,
                    ((self.rom.len() / 0x4000 - 1) as u8) as int,
                ) as usize,
                ..self
            }
        } else if address <= 0x5FFF {
            match mbc3_mode_for(data, self.rtc is Some) {
                Some(mode) => MBC3State { ram_mode: mode, ..self },
                None => self,
            }
        } else if address <= 0x7FFF {
            if data == 0 {
                MBC3State { latched: false, ..self }
            } else if data == 1 && !self.latched {
                MBC3State { latched: true, latched_rtc: self.rtc, ..self }
            } else {
                self
            }
        } else if self.ram_enabled {
            match self.ram_mode {
                MBC3RAMMode::RAMBank(b) => if self.ram.len() == 0 {
                    self
                } else {
                    MBC3State { ram: self.ram.update(ram_offset(address, b as int), data), ..self }
                },
                _ => MBC3State {
                    rtc: Some(rtc_with_register(self.rtc->Some_0, self.ram_mode, data)),
                    ..self
                },
            }
        } else {
            self
        }
    }
}

impl<'a> View for MBC3<'a> {
    type V = MBC3State;

    closed spec fn view(&self) -> MBC3State {
        MBC3State {
            rom: self.rom@,
            ram: self.ram@,
            ram_enabled: self.ram_enabled,
            rom_bank: self.rom_bank,
            ram_mode: self.ram_mode,
            latched: self.latched,
            rtc: self.rtc,
            latched_rtc: self.latched_rtc,
        }
    }
}

/// What `MBC3::new` makes of a ROM and RAM: `validate` for MBC3, and RAM, where present, of
/// exactly four banks.
pub open spec fn spec_mbc3_check(rom: Seq<u8>, ram: Seq<u8>) -> Result<
    CartridgeHeaderInfo,
    CartridgeLoadError,
> {
    match spec_validate(rom, ram, MapperType::MBC3) {
        Err(e) => Err(e),
        Ok(info) => if ram.len() != 0 && ram.len() / 0x2000 != 4 {
            Err(CartridgeLoadError::IncorrectRAMSize { expected: 0x8000, actual: ram.len() as usize })
        } else {
            Ok(info)
        },
    }
}

impl<'a> MBC3<'a> {
    /// An MBC3 cartridge, if the header of `rom` names MBC3, the sizes match and RAM, if any,
    /// has four banks. With a clock, `rtc` (or a zeroed clock) is its starting value and the
    /// latched copy starts zeroed; without one, `rtc` is ignored.
    pub fn new(rom: &'a [u8], ram: &'a mut [u8], rtc: Option<RTCData>) -> (r: MBCResult<MBC3<'a>>)
        ensures
            match r {
                Ok(m) => {
                    let has_rtc = spec_mbc3_check(rom@, old(ram)@)->Ok_0.has_rtc;
                    &&& spec_mbc3_check(rom@, old(ram)@) is Ok
                    &&& m.wf()
                    &&& m@ == MBC3State {
                        rom: rom@,
                        ram: old(ram)@,
                        ram_enabled: false,
                        rom_bank: 1,
                        ram_mode: MBC3RAMMode::RAMBank(1),
                        latched: true,
                        rtc: if has_rtc {
                            Some(
                                match rtc {
                                    Some(x) => x,
                                    None => rtc_zero(),
                                },
                            )
                        } else {
                            None
                        },
                        latched_rtc: if has_rtc {
                            Some(rtc_zero())
                        } else {
                            None
                        },
                    }
                },
                Err(e) => spec_mbc3_check(rom@, old(ram)@) == Err::<CartridgeHeaderInfo, _>(e),
            },
            r is Err ==> final(ram)@ == old(ram)@,
    {
        let info = match validate(rom, ram, MapperType::MBC3) {
            Ok(info) => info,
            Err(e) => return Err(e),
        };
        proof {
            lemma_validated_sizes(rom@, ram@, MapperType::MBC3);
        }
        let (rtc, rtc_latched) = if info.has_rtc {
            let start = match rtc {
                Some(x) => x,
                None => RTCData::default(),
            };
            (Some(start), Some(RTCData::default()))
        } else {
            (None, None)
        };
        if !ram.is_empty() && (ram.len() / TYPICAL_RAM_BANK_SIZE) != 4 {
            return Err(
                CartridgeLoadError::IncorrectRAMSize {
                    expected: TYPICAL_RAM_BANK_SIZE * 4,
                    actual: ram.len(),
                },
            );
        }
        Ok(
            MBC3 {
                rom,
                ram,
                ram_enabled: false,
                rom_bank: 1,
                latched: true,
                ram_mode: MBC3RAMMode::RAMBank(1),
                rtc,
                latched_rtc: rtc_latched,
            },
        )
    }

    /// The clock, or `None` without one.
    pub fn get_rtc(&self) -> (r: Option<RTCData>)
        ensures
            r == self@.rtc,
    {
        self.rtc
    }

    /// The latched copy of the clock, or `None` if there is none.
    pub fn get_latched_rtc(&self) -> (r: Option<RTCData>)
        ensures
            r == self@.latched_rtc,
    {
        self.latched_rtc
    }

    /// Set the clock.
    pub fn set_rtc(&mut self, data: RTCData)
        requires
            old(self).wf(),
        ensures
            final(self).wf(),
            final(self)@ == (MBC3State { rtc: Some(data), ..old(self)@ }),
    {
        self.rtc = Some(data);
    }

    /// Set the latched copy of the clock.
    pub fn set_latched_rtc(&mut self, data: RTCData)
        requires
            old(self).wf(),
        ensures
            final(self).wf(),
            final(self)@ == (MBC3State { latched_rtc: Some(data), ..old(self)@ }),
    {
        self.latched_rtc = Some(data);
    }
}

impl<'a> Memory for MBC3<'a> {
    open spec fn wf(&self) -> bool {
        self@.wf()
    }

    open spec fn can_read(&self, address: u16) -> bool {
        true
    }

    open spec fn read_value(&self, address: u16) -> u8 {
        self@.read_at(address)
    }

    open spec fn after_read(&self, address: u16) -> MBC3State {
        self@
    }

    open spec fn can_write(&self, address: u16, data: u8) -> bool {
        true
    }

    open spec fn after_write(&self, address: u16, data: u8) -> MBC3State {
        self@.written(address, data)
    }

    fn read(&mut self, address: u16) -> (r: u8) {
        if address <= CARTRIDGE_ROM_END {
            self.rom[typical_rom_offset(address, self.rom_bank)]
        } else if self.ram_enabled {
            match self.ram_mode {
                MBC3RAMMode::RAMBank(n) => if self.ram.is_empty() {
                    0xFF
                } else {
                    self.ram[typical_ram_offset(address, n)]
                },
                // a clock register with no latched copy (a clock set on a cartridge that has
                // none) reads as an empty window
                _ if self.latched_rtc.is_none() => 0xFF,
                MBC3RAMMode::RTCSeconds => self.latched_rtc.unwrap().seconds,
                MBC3RAMMode::RTCMinutes => self.latched_rtc.unwrap().minutes,
                MBC3RAMMode::RTCHours => self.latched_rtc.unwrap().hours,
                MBC3RAMMode::RTCDaysLow => self.latched_rtc.unwrap().days_low,
                MBC3RAMMode::RTCFlags => self.latched_rtc.unwrap().flags,
            }
        } else {
            0xFF
        }
    }

    fn write(&mut self, address: u16, data: u8) {
        if address <= 0x1FFF {
            if data == 0xA && (!self.ram.is_empty() || self.rtc.is_some()) {
                // has to be enabled for either RAM or RTC to work, so even if there is no RAM but
                // there's RTC (and vice versa), we need this
                self.ram_enabled = true;
            } else if data == 0x0 {
                self.ram_enabled = false;
            }
        } else if address <= 0x3FFF {
            assert(data & 0x7F == data % 128) by (bit_vector);
            let last = self.rom.len() / TYPICAL_ROM_BANK_SIZE - 1;
            proof {
                lemma_last_bank_byte(last);
            }
            let max = last as u8;
            self.rom_bank = clamp_u8(data & 0x7F, 1, max) as usize;
        } else if address <= 0x5FFF {
            if self.rtc.is_none() {
                if data < 4 {
                    self.ram_mode = MBC3RAMMode::RAMBank(data as usize);
                }
            } else {
                self.ram_mode = match data {
                    0x00..=0x03 => MBC3RAMMode::RAMBank(data as usize),
                    0x08 => MBC3RAMMode::RTCSeconds,
                    0x09 => MBC3RAMMode::RTCMinutes,
                    0x0A => MBC3RAMMode::RTCHours,
                    0x0B => MBC3RAMMode::RTCDaysLow,
                    0x0C => MBC3RAMMode::RTCFlags,
                    _ => return ,
                }
            }
        } else if address <= 0x7FFF {
            if data == 0x00 {
                self.latched = false;
            }
            if data == 0x01 && !self.latched {
                self.latched = true;
                self.latched_rtc = self.rtc;
            }
        } else if self.ram_enabled {
            match self.ram_mode {
                MBC3RAMMode::RAMBank(b) => if !self.ram.is_empty() {
                    let i = typical_ram_offset(address, b);
                    self.ram[i] = data;
                },
                MBC3RAMMode::RTCSeconds => {
                    let mut t = self.rtc.unwrap();
                    t.seconds = data;
                    self.rtc = Some(t);
                },
                MBC3RAMMode::RTCMinutes => {
                    let mut t = self.rtc.unwrap();
                    t.minutes = data;
                    self.rtc = Some(t);
                },
                MBC3RAMMode::RTCHours => {
                    let mut t = self.rtc.unwrap();
                    t.hours = data;
                    self.rtc = Some(t);
                },
                MBC3RAMMode::RTCDaysLow => {
                    let mut t = self.rtc.unwrap();
                    t.days_low = data;
                    self.rtc = Some(t);
                },
                MBC3RAMMode::RTCFlags => {
                    let mut t = self.rtc.unwrap();
                    t.flags = data;
                    self.rtc = Some(t);
                },
            }
        }
    }
}

impl<'a> Cartridge for MBC3<'a> {
    fn rom_bank_size(&self) -> (r: Option<usize>)
        ensures
            r == Some(0x4000usize),
    {
        Some(TYPICAL_ROM_BANK_SIZE)
    }

    fn rom_data(&self) -> (r: Option<&[u8]>)
        ensures
            r matches Some(s) && s@ == self@.rom,
    {
        Some(self.rom)
    }

    fn ram_bank_size(&self) -> (r: Option<usize>)
        ensures
            r == Some(0x2000usize),
    {
        Some(TYPICAL_RAM_BANK_SIZE)
    }

    fn ram_data(&self) -> (r: Option<&[u8]>)
        ensures
            r matches Some(s) && s@ == self@.ram,
    {
        Some(&*self.ram)
    }

    fn ram_data_mut(&mut self) -> (r: Option<&mut [u8]>)
        ensures
            r is Some,
            r.unwrap()@ == old(self)@.ram,
            final(self)@ == (MBC3State { ram: final(r.unwrap())@, ..old(self)@ }),
    {
        Some(&mut *self.ram)
    }
}

/// In a RAM bank mode with RAM present and enabled, a byte written above 0x7FFF reads back.
pub proof fn law_mbc3_ram_round_trip(s: MBC3State, address: u16, data: u8)
    requires
        s.wf(),
        s.ram_enabled,
        s.ram_mode is RAMBank,
        s.ram.len() != 0,
        address > 0x7FFF,
    ensures
        s.written(address, data).read_at(address) == data,
{
}

/// Writing 0x0A to 0x0000-0x1FFF enables the window when there is RAM or a clock, so that on
/// a cartridge with a clock a selected clock register reads its latched copy; writing 0x00
/// there disables it.
pub proof fn law_mbc3_ram_enable(s: MBC3State, address: u16, other: u16)
    requires
        s.wf(),
        address <= 0x1FFF,
        other > 0x7FFF,
    ensures
        s.ram.len() != 0 || s.rtc is Some ==> s.written(address, 0x0A).ram_enabled,
        s.rtc is Some && s.latched_rtc is Some && !(s.ram_mode is RAMBank) ==> s.written(
            address,
            0x0A,
        ).read_at(other) == rtc_register(s.latched_rtc->Some_0, s.ram_mode),
        !s.written(address, 0x00).ram_enabled,
{
}

/// The number of the last ROM bank, as the byte that the bank register clamps to: never 0,
/// and never above the bank number itself.
proof fn lemma_last_bank_byte(last: usize)
    by (bit_vector)
    requires
        last == 1 || last == 3 || last == 7 || last == 15 || last == 31 || last == 63 || last
            == 127 || last == 255 || last == 511,
    ensures
        1 <= (last as u8),
        (last as u8) as usize <= last,
{
}

/// No write changes the ROM, and every write keeps the state well formed.
pub proof fn law_mbc3_write_keeps_rom(s: MBC3State, address: u16, data: u8)
    requires
        s.wf(),
    ensures
        s.written(address, data).rom == s.rom,
        s.written(address, data).wf(),
{
    lemma_last_bank_byte((s.rom.len() / 0x4000 - 1) as usize);
}

/// Writing 0 and then 1 to 0x6000-0x7FFF copies the clock into its latched copy, so that the
/// clock registers read what the clock held.
pub proof fn law_mbc3_latch(s: MBC3State, a0: u16, a1: u16)
    requires
        s.wf(),
        0x6000 <= a0 <= 0x7FFF,
        0x6000 <= a1 <= 0x7FFF,
    ensures
        s.written(a0, 0).written(a1, 1).latched_rtc == s.rtc,
        s.written(a0, 0).written(a1, 1).latched,
{
}

/// With the window enabled on a cartridge with a clock, selecting 0x08, 0x09, 0x0A, 0x0B or 0x0C
/// at 0x4000-0x5FFF makes 0xA000-0xBFFF read the latched seconds, minutes, hours, low day
/// count or flags, and a write there sets that register of the running clock alone.
pub proof fn law_mbc3_clock_registers(s: MBC3State, select: u16, window: u16, data: u8)
    requires
        s.wf(),
        s.ram_enabled,
        s.rtc is Some,
        s.latched_rtc is Some,
        0x4000 <= select <= 0x5FFF,
        0xA000 <= window <= 0xBFFF,
    ensures
        s.written(select, 0x08).read_at(window) == s.latched_rtc->Some_0.seconds,
        s.written(select, 0x09).read_at(window) == s.latched_rtc->Some_0.minutes,
        s.written(select, 0x0A).read_at(window) == s.latched_rtc->Some_0.hours,
        s.written(select, 0x0B).read_at(window) == s.latched_rtc->Some_0.days_low,
        s.written(select, 0x0C).read_at(window) == s.latched_rtc->Some_0.flags,
        s.written(select, 0x08).written(window, data).rtc == Some(
            RTCData { seconds: data, ..s.rtc->Some_0 },
        ),
        s.written(select, 0x09).written(window, data).rtc == Some(
            RTCData { minutes: data, ..s.rtc->Some_0 },
        ),
        s.written(select, 0x0A).written(window, data).rtc == Some(
            RTCData { hours: data, ..s.rtc->Some_0 },
        ),
        s.written(select, 0x0B).written(window, data).rtc == Some(
            RTCData { days_low: data, ..s.rtc->Some_0 },
        ),
        s.written(select, 0x0C).written(window, data).rtc == Some(
            RTCData { flags: data, ..s.rtc->Some_0 },
        ),
{
}

/// Writing to 0x2000-0x3FFF selects the ROM bank by the low seven bits of the data: bank 0
/// selects bank 1, and a bank that exists is selected as written, so that 0x4000-0x7FFF then
/// reads that bank of the ROM.
pub proof fn law_mbc3_rom_bank_select(s: MBC3State, address: u16, window: u16, data: u8)
    requires
        s.wf(),
        0x2000 <= address <= 0x3FFF,
        0x4000 <= window <= 0x7FFF,
    ensures
        data % 128 == 0 ==> s.written(address, data).rom_bank == 1,
        1 <= data % 128 < s.rom.len() / 0x4000 ==> s.written(address, data).rom_bank == data
            % 128,
        1 <= data % 128 < s.rom.len() / 0x4000 ==> s.written(address, data).read_at(window)
            == s.rom[0x4000 * (data % 128) + (window - 0x4000)],
{
    let last = (s.rom.len() / 0x4000 - 1) as usize;
    lemma_last_bank_byte(last);
    assert(last < 128 ==> (last as u8) as usize == last) by (bit_vector);
    assert(last >= 128 ==> (last as u8) >= 127) by (bit_vector)
        requires
            last == 1 || last == 3 || last == 7 || last == 15 || last == 31 || last == 63 || last
                == 127 || last == 255 || last == 511,
    ;
}

/// Writing 0-3 to 0x4000-0x5FFF selects that RAM bank, so that with RAM present and enabled
/// 0xA000-0xBFFF then reads that bank of the RAM.
pub proof fn law_mbc3_ram_bank_select(s: MBC3State, select: u16, window: u16, data: u8)
    requires
        s.wf(),
        s.ram_enabled,
        s.ram.len() != 0,
        0x4000 <= select <= 0x5FFF,
        0xA000 <= window <= 0xBFFF,
        data < 4,
    ensures
        s.written(select, data).read_at(window) == s.ram[0x2000 * data + (window - 0xA000)],
{
}

} // verus!
