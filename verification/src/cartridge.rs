//! Cartridges and the cartridge header.

use vstd::prelude::*;
use crate::memory::Memory;
use crate::util::{hex_text, push_hex};
use vstd::string::StringExecFns;

pub mod mbc;

verus! {

/// Denotes a cartridge, which contains the game.
pub trait Cartridge: Memory {
    /// Return true if the cart reset line is set.
    fn reset(&self) -> (r: bool)
        default_ensures
            !r,
    {
        false
    }

    /// Get the size of a bank in ROM.
    ///
    /// This is useful for RAM viewers, but this method can return `None` if data cannot be accessed
    /// directly (e.g. an external cartridge).
    fn rom_bank_size(&self) -> (r: Option<usize>)
        default_ensures
            r is None,
    {
        None
    }

    /// Get the currently selected ROM bank, if the cartridge has banks.
    fn rom_bank(&self) -> (r: Option<usize>)
        default_ensures
            r is None,
    {
        None
    }

    /// Get a reference to the ROM data.
    ///
    /// This is useful for RAM viewers, but this method can return `None` if data cannot be accessed
    /// directly (e.g. an external cartridge).
    fn rom_data(&self) -> (r: Option<&[u8]>)
        default_ensures
            r is None,
    {
        None
    }

    /// Get the size of a bank in RAM.
    ///
    /// This is useful for RAM viewers, but this method can return `None` if data cannot be accessed
    /// directly (e.g. an external cartridge).
    fn ram_bank_size(&self) -> (r: Option<usize>)
        default_ensures
            r is None,
    {
        None
    }

    /// Get the currently selected RAM bank, if the cartridge has banked RAM.
    fn ram_bank(&self) -> (r: Option<usize>)
        default_ensures
            r is None,
    {
        None
    }

    /// Get a reference to the RAM data.
    ///
    /// This is useful for RAM viewers, but this method can return `None` if data cannot be accessed
    /// directly (e.g. an external cartridge).
    fn ram_data(&self) -> (r: Option<&[u8]>)
        default_ensures
            r is None,
    {
        None
    }

    /// Get a mutable reference to the RAM data.
    ///
    /// This is useful for RAM viewers, but this method can return `None` if data cannot be accessed
    /// directly (e.g. an external cartridge).
    fn ram_data_mut(&mut self) -> (r: Option<&mut [u8]>)
        default_ensures
            r is None,
    {
        None
    }
}

/// Denotes the state a cartridge is not present.
#[derive(Copy, Clone)]
pub struct NullCartridge;

impl View for NullCartridge {
    type V = ();

    open spec fn view(&self) -> () {
        ()
    }
}

impl Cartridge for NullCartridge {

}

impl Memory for NullCartridge {
    open spec fn wf(&self) -> bool {
        true
    }

    open spec fn can_read(&self, address: u16) -> bool {
        true
    }

    open spec fn read_value(&self, address: u16) -> u8 {
        0xFF
    }

    open spec fn after_read(&self, address: u16) -> () {
        ()
    }

    open spec fn can_write(&self, address: u16, data: u8) -> bool {
        true
    }

    open spec fn after_write(&self, address: u16, data: u8) -> () {
        ()
    }

    fn read(&mut self, _address: u16) -> (r: u8) {
        0xFF
    }

    fn write(&mut self, _address: u16, _data: u8) {
    }
}

/// Cartridge info from a ROM.
#[must_use]
pub struct CartridgeHeaderInfo {
    /// Mapper type to use.
    pub mapper_type: MapperType,
    /// Size of data needed for ROM.
    pub rom_size: usize,
    /// Size of data needed for writable memory.
    pub ram_size: usize,
    /// The cartridge has a built-in real-time clock.
    pub has_rtc: bool,
    /// The cartridge's writable memory is saved when the game is powered off.
    pub has_save_data: bool,
    /// The cartridge has rumble.
    pub has_rumble: bool,
    /// Cartridge will boot in a retail console.
    pub bootable: bool,
}

/// What the cartridge type byte of a header (0x147) says of the hardware on the cartridge.
#[derive(Copy, Clone)]
pub struct CartridgeType {
    pub mapper: MapperType,
    pub has_ram: bool,
    pub has_save_data: bool,
    pub has_rumble: bool,
    pub has_rtc: bool,
}

/// The hardware that the cartridge type byte `code` denotes, or `None` for a byte that this
/// library does not know.
pub open spec fn cartridge_type_of(code: u8) -> Option<CartridgeType> {
    let t = |mapper: MapperType, has_ram: bool, has_save_data: bool, has_rumble: bool, has_rtc: bool|
        Some(CartridgeType { mapper, has_ram, has_save_data, has_rumble, has_rtc });
    if code == 0x00 {
        t(MapperType::ROMOnly, false, false, false, false)
    } else if code == 0x01 {
        t(MapperType::MBC1, false, false, false, false)
    } else if code == 0x02 {
        t(MapperType::MBC1, true, false, false, false)
    } else if code == 0x03 {
        t(MapperType::MBC1, true, true, false, false)
    } else if code == 0x05 {
        t(MapperType::MBC2, false, false, false, false)
    } else if code == 0x06 {
        t(MapperType::MBC2, false, true, false, false)
    } else if code == 0x08 {
        t(MapperType::ROMOnly, true, false, false, false)
    } else if code == 0x09 {
        t(MapperType::ROMOnly, true, true, false, false)
    } else if code == 0x0F {
        t(MapperType::MBC3, false, false, false, true)
    } else if code == 0x10 {
        t(MapperType::MBC3, true, true, false, true)
    } else if code == 0x11 {
        t(MapperType::MBC3, false, false, false, false)
    } else if code == 0x12 {
        t(MapperType::MBC3, true, false, false, false)
    } else if code == 0x13 {
        t(MapperType::MBC3, true, true, false, false)
    } else if code == 0x19 {
        t(MapperType::MBC5, false, false, false, false)
    } else if code == 0x1A {
        t(MapperType::MBC5, true, false, false, false)
    } else if code == 0x1B {
        t(MapperType::MBC5, true, true, false, false)
    } else if code == 0x1C {
        t(MapperType::MBC5, false, false, true, false)
    } else if code == 0x1D {
        t(MapperType::MBC5, true, false, true, false)
    } else if code == 0x1E {
        t(MapperType::MBC5, true, true, true, false)
    } else if code == 0x20 {
        t(MapperType::MBC6, false, false, false, false)
    } else if code == 0x22 {
        t(MapperType::MBC7, true, true, true, false)
    } else {
        None
    }
}

/// Size of the writable memory of a cartridge of type `kind` whose RAM size byte (0x149) is
/// `code`, or `None` where the byte is needed and unknown: MBC2 and MBC7 have 256 bytes built in,
/// other cartridges with RAM take the size from the byte, the rest have none.
pub open spec fn ram_size_of(kind: CartridgeType, code: u8) -> Option<usize> {
    if kind.mapper == MapperType::MBC2 || kind.mapper == MapperType::MBC7 {
        Some(256)
    } else if kind.has_ram {
        if code == 2 {
            Some(0x2000usize)
        } else if code == 3 {
            Some(0x8000usize)
        } else if code == 4 {
            Some(0x20000usize)
        } else if code == 5 {
            Some(0x10000usize)
        } else {
            None
        }
    } else {
        Some(0)
    }
}

/// Size of the ROM whose ROM size byte (0x148) is `code`: 32 KiB shifted left by the byte
/// (32 KiB, 64 KiB, ..., 8 MiB), for a byte of at most 8.
pub open spec fn rom_size_of(code: u8) -> Option<usize> {
    if code == 0 {
        Some(0x8000usize)
    } else if code == 1 {
        Some(0x10000usize)
    } else if code == 2 {
        Some(0x20000usize)
    } else if code == 3 {
        Some(0x40000usize)
    } else if code == 4 {
        Some(0x80000usize)
    } else if code == 5 {
        Some(0x100000usize)
    } else if code == 6 {
        Some(0x200000usize)
    } else if code == 7 {
        Some(0x400000usize)
    } else if code == 8 {
        Some(0x800000usize)
    } else {
        None
    }
}

/// The logo that a cartridge must show at 0x104-0x133 to boot.
pub open spec fn nintendo_logo() -> Seq<u8> {
    seq![
        0xCEu8, 0xED, 0x66, 0x66, 0xCC, 0x0D, 0x00, 0x0B, 0x03, 0x73, 0x00, 0x83, 0x00, 0x0C, 0x00, 0x0D,
        0x00, 0x08, 0x11, 0x1F, 0x88, 0x89, 0x00, 0x0E, 0xDC, 0xCC, 0x6E, 0xE6, 0xDD, 0xDD, 0xD9, 0x99,
        0xBB, 0xBB, 0x67, 0x63, 0x6E, 0x0E, 0xEC, 0xCC, 0xDD, 0xDC, 0x99, 0x9F, 0xBB, 0xB9, 0x33, 0x3E,
    ]
}

/// Sum of the bytes of `s`.
pub open spec fn byte_sum(s: Seq<u8>) -> int
    decreases s.len(),
{
    if s.len() == 0 {
        0
    } else {
        byte_sum(s.drop_last()) + s.last()
    }
}

/// The header checksum over header bytes 0x34-0x4C (cartridge 0x134-0x14C): the byte that is
/// minus their sum minus one per byte, modulo 256.
pub open spec fn header_checksum(header: Seq<u8>) -> u8 {
    ((0 - byte_sum(header.subrange(0x34, 0x4D)) - 25) % 256) as u8
}

/// A header holds the logo and a matching checksum.
pub open spec fn header_bootable(header: Seq<u8>) -> bool {
    header.subrange(0x4, 0x34) == nintendo_logo() && header_checksum(header) == header[0x4D]
}

/// What `read_cartridge_header` makes of the 0x50 bytes at 0x100-0x14F of a ROM: the first byte
/// of type (0x147), RAM size (0x149) and ROM size (0x148), in that order, that it does not know
/// is the error; otherwise the info.
pub open spec fn spec_read_cartridge_header(header: Seq<u8>) -> Result<
    CartridgeHeaderInfo,
    CartridgeHeaderError,
> {
    match cartridge_type_of(header[0x47]) {
        None => Err(CartridgeHeaderError::UnknownMapper(header[0x47])),
        Some(kind) => match ram_size_of(kind, header[0x49]) {
            None => Err(CartridgeHeaderError::UnknownRAMSize(header[0x49])),
            Some(ram_size) => match rom_size_of(header[0x48]) {
                None => Err(CartridgeHeaderError::UnknownROMSize(header[0x48])),
                Some(rom_size) => Ok(
                    CartridgeHeaderInfo {
                        mapper_type: kind.mapper,
                        rom_size,
                        ram_size,
                        has_rtc: kind.has_rtc,
                        has_save_data: kind.has_save_data,
                        has_rumble: kind.has_rumble,
                        bootable: header_bootable(header),
                    },
                ),
            },
        },
    }
}

fn cartridge_type_for(code: u8) -> (r: Option<CartridgeType>)
    ensures
        r == cartridge_type_of(code),
{
    let t = |mapper: MapperType, has_ram: bool, has_save_data: bool, has_rumble: bool, has_rtc: bool|
        -> (c: CartridgeType)
        ensures
            c == (CartridgeType { mapper, has_ram, has_save_data, has_rumble, has_rtc }),
        { CartridgeType { mapper, has_ram, has_save_data, has_rumble, has_rtc } };
    let kind = match code {
        // ROM ONLY
        0x00 => t(MapperType::ROMOnly, false, false, false, false),
        // MBC1
        0x01 => t(MapperType::MBC1, false, false, false, false),
        // MBC1+RAM
        0x02 => t(MapperType::MBC1, true, false, false, false),
        // MBC1+RAM+BATTERY
        0x03 => t(MapperType::MBC1, true, true, false, false),
        // MBC2
        0x05 => t(MapperType::MBC2, false, false, false, false),
        // MBC2+BATTERY
        0x06 => t(MapperType::MBC2, false, true, false, false),
        // ROM+RAM
        0x08 => t(MapperType::ROMOnly, true, false, false, false),
        // ROM+RAM+BATTERY
        0x09 => t(MapperType::ROMOnly, true, true, false, false),
        // MBC3+TIMER+BATTERY
        0x0F => t(MapperType::MBC3, false, false, false, true),
        // MBC3+TIMER+RAM+BATTERY
        0x10 => t(MapperType::MBC3, true, true, false, true),
        // MBC3
        0x11 => t(MapperType::MBC3, false, false, false, false),
        // MBC3+RAM
        0x12 => t(MapperType::MBC3, true, false, false, false),
        // MBC3+RAM+BATTERY
        0x13 => t(MapperType::MBC3, true, true, false, false),
        // MBC5
        0x19 => t(MapperType::MBC5, false, false, false, false),
        // MBC5+RAM
        0x1A => t(MapperType::MBC5, true, false, false, false),
        // MBC5+RAM+BATTERY
        0x1B => t(MapperType::MBC5, true, true, false, false),
        // MBC5+RUMBLE
        0x1C => t(MapperType::MBC5, false, false, true, false),
        // MBC5+RUMBLE+RAM
        0x1D => t(MapperType::MBC5, true, false, true, false),
        // MBC5+RUMBLE+RAM+BATTERY
        0x1E => t(MapperType::MBC5, true, true, true, false),
        // MBC6
        0x20 => t(MapperType::MBC6, false, false, false, false),
        // MBC7+SENSOR+RUMBLE+RAM+BATTERY
        0x22 => t(MapperType::MBC7, true, true, true, false),
        _ => return None,
    };
    Some(kind)
}

fn logo_matches(header: &[u8; 0x50]) -> (r: bool)
    ensures
        r == (header@.subrange(0x4, 0x34) == nintendo_logo()),
{
    let logo: [u8; 48] = [
        0xCE, 0xED, 0x66, 0x66, 0xCC, 0x0D, 0x00, 0x0B, 0x03, 0x73, 0x00, 0x83, 0x00, 0x0C, 0x00, 0x0D,
        0x00, 0x08, 0x11, 0x1F, 0x88, 0x89, 0x00, 0x0E, 0xDC, 0xCC, 0x6E, 0xE6, 0xDD, 0xDD, 0xD9, 0x99,
        0xBB, 0xBB, 0x67, 0x63, 0x6E, 0x0E, 0xEC, 0xCC, 0xDD, 0xDC, 0x99, 0x9F, 0xBB, 0xB9, 0x33, 0x3E,
    ];
    assert(logo@ =~= nintendo_logo());
    let mut i: usize = 0;
    while i < 48
        invariant
            i <= 48,
            logo@ == nintendo_logo(),
            forall|j: int| 0 <= j < i ==> header@[4 + j] == logo@[j],
        decreases 48 - i,
    {
        if header[4 + i] != logo[i] {
            assert(header@.subrange(0x4, 0x34)[i as int] != nintendo_logo()[i as int]);
            return false;
        }
        i = i + 1;
    }
    assert(header@.subrange(0x4, 0x34) =~= nintendo_logo());
    true
}

fn compute_header_checksum(header: &[u8; 0x50]) -> (r: u8)
    ensures
        r == header_checksum(header@),
{
    let mut checksum = 0u8;
    let mut i: usize = 0x34;
    while i <= 0x4C
        invariant
            0x34 <= i <= 0x4D,
            checksum == ((0 - byte_sum(header@.subrange(0x34, i as int)) - (i - 0x34)) % 256),
        decreases 0x4D - i,
    {
        assert(header@.subrange(0x34, i + 1).drop_last() =~= header@.subrange(0x34, i as int));
        let prev = checksum;
        checksum = checksum.wrapping_sub(header[i]).wrapping_sub(1);
        assert(checksum == ((prev - header@[i as int] - 1) % 256));
        i = i + 1;
    }
    checksum
}

impl CartridgeHeaderInfo {
    /// Decode the cartridge header: the 0x50 bytes at 0x100-0x14F of a ROM.
    pub fn read_cartridge_header(header: &[u8; 0x50]) -> (r: Result<Self, CartridgeHeaderError>)
        ensures
            r == spec_read_cartridge_header(header@),
    {
        let cartridge_type = match cartridge_type_for(header[0x47]) {
            Some(t) => t,
            None => return Err(CartridgeHeaderError::UnknownMapper(header[0x47])),
        };
        let writable_memory_size: usize = if cartridge_type.mapper == MapperType::MBC2 {
            // 512 half bytes
            256
        } else if cartridge_type.mapper == MapperType::MBC7 {
            // 256 bytes
            256
        } else if cartridge_type.has_ram {
            match header[0x49] {
                2 => 8 * 1024,
                3 => 32 * 1024,
                4 => 128 * 1024,
                5 => 64 * 1024,
                n => return Err(CartridgeHeaderError::UnknownRAMSize(n)),
            }
        } else {
            0
        };
        let rom_size_val = header[0x48];
        let rom_size: usize = match rom_size_val {
            0..=8 => {
                let c = rom_size_val as usize;
                assert(c <= 8 ==> (0x8000usize << c) == if c == 0 {
                    0x8000usize
                } else if c == 1 {
                    0x10000usize
                } else if c == 2 {
                    0x20000usize
                } else if c == 3 {
                    0x40000usize
                } else if c == 4 {
                    0x80000usize
                } else if c == 5 {
                    0x100000usize
                } else if c == 6 {
                    0x200000usize
                } else if c == 7 {
                    0x400000usize
                } else {
                    0x800000usize
                }) by (bit_vector);
                (32 * 1024) << c
            },
            n => return Err(CartridgeHeaderError::UnknownROMSize(n)),
        };
        let valid_logo = logo_matches(header);
        let checksum = compute_header_checksum(header);
        let checksum_matches = valid_logo && checksum == header[0x4D];
        Ok(
            Self {
                mapper_type: cartridge_type.mapper,
                rom_size,
                ram_size: writable_memory_size,
                has_rumble: cartridge_type.has_rumble,
                has_save_data: cartridge_type.has_save_data,
                has_rtc: cartridge_type.has_rtc,
                bootable: valid_logo && checksum_matches,
            },
        )
    }
}

/// The cartridge type table, for a header whose ROM size byte (0x148) is known and whose RAM
/// size byte (0x149) is one of 2, 3, 4 and 5: each known type byte (0x147) decodes to its
/// mapper, clock, battery and rumble, and to 8, 32, 128 or 64 KiB of RAM where the type has RAM,
/// 256 bytes for MBC2 and MBC7, and none otherwise; any other type byte is an unknown mapper.
pub proof fn law_cartridge_type_table(h: Seq<u8>)
    requires
        h.len() == 0x50,
        h[0x48] <= 8,
        2 <= h[0x49] <= 5,
    ensures
        h[0x47] == 0x00 ==> (spec_read_cartridge_header(h) matches Ok(i) && i.mapper_type
            == MapperType::ROMOnly && !i.has_rtc && !i.has_save_data && !i.has_rumble),
        h[0x47] == 0x01 ==> (spec_read_cartridge_header(h) matches Ok(i) && i.mapper_type
            == MapperType::MBC1 && !i.has_rtc && !i.has_save_data && !i.has_rumble),
        h[0x47] == 0x02 ==> (spec_read_cartridge_header(h) matches Ok(i) && i.mapper_type
            == MapperType::MBC1 && !i.has_rtc && !i.has_save_data && !i.has_rumble),
        h[0x47] == 0x03 ==> (spec_read_cartridge_header(h) matches Ok(i) && i.mapper_type
            == MapperType::MBC1 && !i.has_rtc && i.has_save_data && !i.has_rumble),
        h[0x47] == 0x05 ==> (spec_read_cartridge_header(h) matches Ok(i) && i.mapper_type
            == MapperType::MBC2 && !i.has_rtc && !i.has_save_data && !i.has_rumble),
        h[0x47] == 0x06 ==> (spec_read_cartridge_header(h) matches Ok(i) && i.mapper_type
            == MapperType::MBC2 && !i.has_rtc && i.has_save_data && !i.has_rumble),
        h[0x47] == 0x08 ==> (spec_read_cartridge_header(h) matches Ok(i) && i.mapper_type
            == MapperType::ROMOnly && !i.has_rtc && !i.has_save_data && !i.has_rumble),
        h[0x47] == 0x09 ==> (spec_read_cartridge_header(h) matches Ok(i) && i.mapper_type
            == MapperType::ROMOnly && !i.has_rtc && i.has_save_data && !i.has_rumble),
        h[0x47] == 0x0F ==> (spec_read_cartridge_header(h) matches Ok(i) && i.mapper_type
            == MapperType::MBC3 && i.has_rtc && !i.has_save_data && !i.has_rumble),
        h[0x47] == 0x10 ==> (spec_read_cartridge_header(h) matches Ok(i) && i.mapper_type
            == MapperType::MBC3 && i.has_rtc && i.has_save_data && !i.has_rumble),
        h[0x47] == 0x11 ==> (spec_read_cartridge_header(h) matches Ok(i) && i.mapper_type
            == MapperType::MBC3 && !i.has_rtc && !i.has_save_data && !i.has_rumble),
        h[0x47] == 0x12 ==> (spec_read_cartridge_header(h) matches Ok(i) && i.mapper_type
            == MapperType::MBC3 && !i.has_rtc && !i.has_save_data && !i.has_rumble),
        h[0x47] == 0x13 ==> (spec_read_cartridge_header(h) matches Ok(i) && i.mapper_type
            == MapperType::MBC3 && !i.has_rtc && i.has_save_data && !i.has_rumble),
        h[0x47] == 0x19 ==> (spec_read_cartridge_header(h) matches Ok(i) && i.mapper_type
            == MapperType::MBC5 && !i.has_rtc && !i.has_save_data && !i.has_rumble),
        h[0x47] == 0x1A ==> (spec_read_cartridge_header(h) matches Ok(i) && i.mapper_type
            == MapperType::MBC5 && !i.has_rtc && !i.has_save_data && !i.has_rumble),
        h[0x47] == 0x1B ==> (spec_read_cartridge_header(h) matches Ok(i) && i.mapper_type
            == MapperType::MBC5 && !i.has_rtc && i.has_save_data && !i.has_rumble),
        h[0x47] == 0x1C ==> (spec_read_cartridge_header(h) matches Ok(i) && i.mapper_type
            == MapperType::MBC5 && !i.has_rtc && !i.has_save_data && i.has_rumble),
        h[0x47] == 0x1D ==> (spec_read_cartridge_header(h) matches Ok(i) && i.mapper_type
            == MapperType::MBC5 && !i.has_rtc && !i.has_save_data && i.has_rumble),
        h[0x47] == 0x1E ==> (spec_read_cartridge_header(h) matches Ok(i) && i.mapper_type
            == MapperType::MBC5 && !i.has_rtc && i.has_save_data && i.has_rumble),
        h[0x47] == 0x20 ==> (spec_read_cartridge_header(h) matches Ok(i) && i.mapper_type
            == MapperType::MBC6 && !i.has_rtc && !i.has_save_data && !i.has_rumble),
        h[0x47] == 0x22 ==> (spec_read_cartridge_header(h) matches Ok(i) && i.mapper_type
            == MapperType::MBC7 && !i.has_rtc && i.has_save_data && i.has_rumble),
        h[0x47] == 0x02 || h[0x47] == 0x03 || h[0x47] == 0x08 || h[0x47] == 0x09 || h[0x47] == 0x10
            || h[0x47] == 0x12 || h[0x47] == 0x13 || h[0x47] == 0x1A || h[0x47] == 0x1B || h[0x47]
            == 0x1D || h[0x47] == 0x1E ==> (spec_read_cartridge_header(h) matches Ok(i) && (h[0x49]
            == 2 ==> i.ram_size == 0x2000) && (h[0x49] == 3 ==> i.ram_size == 0x8000) && (h[0x49]
            == 4 ==> i.ram_size == 0x20000) && (h[0x49] == 5 ==> i.ram_size == 0x10000)),
        h[0x47] == 0x05 || h[0x47] == 0x06 || h[0x47] == 0x22 ==> (spec_read_cartridge_header(h)
            matches Ok(i) && i.ram_size == 256),
        h[0x47] == 0x00 || h[0x47] == 0x01 || h[0x47] == 0x0F || h[0x47] == 0x11 || h[0x47] == 0x19
            || h[0x47] == 0x1C || h[0x47] == 0x20 ==> (spec_read_cartridge_header(h) matches Ok(i)
            && i.ram_size == 0),
        !(h[0x47] == 0x00 || h[0x47] == 0x01 || h[0x47] == 0x02 || h[0x47] == 0x03 || h[0x47]
            == 0x05 || h[0x47] == 0x06 || h[0x47] == 0x08 || h[0x47] == 0x09 || h[0x47] == 0x0F
            || h[0x47] == 0x10 || h[0x47] == 0x11 || h[0x47] == 0x12 || h[0x47] == 0x13 || h[0x47]
            == 0x19 || h[0x47] == 0x1A || h[0x47] == 0x1B || h[0x47] == 0x1C || h[0x47] == 0x1D
            || h[0x47] == 0x1E || h[0x47] == 0x20 || h[0x47] == 0x22) ==> spec_read_cartridge_header(
            h,
        ) == Err::<CartridgeHeaderInfo, _>(CartridgeHeaderError::UnknownMapper(h[0x47])),
{
}

/// The ROM size byte (0x148) gives 32 KiB shifted left by its value, up to 8 MiB, whatever the
/// known cartridge type and RAM size bytes.
pub proof fn law_header_rom_sizes(h: Seq<u8>)
    requires
        h.len() == 0x50,
        spec_read_cartridge_header(h) is Ok,
    ensures
        h[0x48] <= 8,
        h[0x48] == 0 ==> spec_read_cartridge_header(h)->Ok_0.rom_size == 0x8000,
        h[0x48] == 1 ==> spec_read_cartridge_header(h)->Ok_0.rom_size == 0x10000,
        h[0x48] == 2 ==> spec_read_cartridge_header(h)->Ok_0.rom_size == 0x20000,
        h[0x48] == 3 ==> spec_read_cartridge_header(h)->Ok_0.rom_size == 0x40000,
        h[0x48] == 4 ==> spec_read_cartridge_header(h)->Ok_0.rom_size == 0x80000,
        h[0x48] == 5 ==> spec_read_cartridge_header(h)->Ok_0.rom_size == 0x100000,
        h[0x48] == 6 ==> spec_read_cartridge_header(h)->Ok_0.rom_size == 0x200000,
        h[0x48] == 7 ==> spec_read_cartridge_header(h)->Ok_0.rom_size == 0x400000,
        h[0x48] == 8 ==> spec_read_cartridge_header(h)->Ok_0.rom_size == 0x800000,
{
}

/// The mapper (memory bank controller) of a cartridge.
#[derive(Default, PartialEq, Eq, Structural, Debug, Copy, Clone)]
pub enum MapperType {
    #[default]
    ROMOnly,
    MBC1,
    MBC2,
    MBC3,
    MBC5,
    MBC6,
    MBC7,
}

/// Why a cartridge header could not be decoded.
#[derive(Debug, PartialEq, Eq, Structural, Copy, Clone)]
pub enum CartridgeHeaderError {
    UnknownMapper(u8),
    UnknownRAMSize(u8),
    UnknownROMSize(u8),
}

} // verus!

verus! {

/// The name of a mapper, as its `Debug` form writes it.
pub open spec fn mapper_name(m: MapperType) -> Seq<char> {
    match m {
        MapperType::ROMOnly => "ROMOnly"@,
        MapperType::MBC1 => "MBC1"@,
        MapperType::MBC2 => "MBC2"@,
        MapperType::MBC3 => "MBC3"@,
        MapperType::MBC5 => "MBC5"@,
        MapperType::MBC6 => "MBC6"@,
        MapperType::MBC7 => "MBC7"@,
    }
}

impl MapperType {
    /// The name of the mapper, as its `Debug` form writes it.
    pub fn name(&self) -> (r: &'static str)
        ensures
            r@ == mapper_name(*self),
    {
        match self {
            MapperType::ROMOnly => "ROMOnly",
            MapperType::MBC1 => "MBC1",
            MapperType::MBC2 => "MBC2",
            MapperType::MBC3 => "MBC3",
            MapperType::MBC5 => "MBC5",
            MapperType::MBC6 => "MBC6",
            MapperType::MBC7 => "MBC7",
        }
    }
}

/// The text that describes a header error: what was unknown, and the byte in hexadecimal.
pub open spec fn header_error_text(e: CartridgeHeaderError) -> Seq<char> {
    match e {
        CartridgeHeaderError::UnknownMapper(m) => "Unknown mapper ("@ + hex_text(m as nat, 2) + ")"@,
        CartridgeHeaderError::UnknownRAMSize(m) => "Unknown RAM size ("@ + hex_text(m as nat, 2)
            + ")"@,
        CartridgeHeaderError::UnknownROMSize(m) => "Unknown ROM size ("@ + hex_text(m as nat, 2)
            + ")"@,
    }
}

impl CartridgeHeaderError {
    /// The text that describes the error, as its display form.
    pub fn message(&self) -> (r: String)
        ensures
            r@ == header_error_text(*self),
    {
        let (mut s, m) = match self {
            CartridgeHeaderError::UnknownMapper(m) => (String::from_str("Unknown mapper ("), *m),
            CartridgeHeaderError::UnknownRAMSize(m) => (String::from_str("Unknown RAM size ("), *m),
            CartridgeHeaderError::UnknownROMSize(m) => (String::from_str("Unknown ROM size ("), *m),
        };
        push_hex(&mut s, m as usize, 2);
        s.append(")");
        s
    }
}

} // verus!
