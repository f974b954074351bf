//! Memory bank controllers: the mappers that cartridges put between the bus and their memory.

use vstd::prelude::*;
use crate::cartridge::{
    CartridgeHeaderInfo, MapperType, spec_read_cartridge_header, rom_size_of,
    cartridge_type_of, ram_size_of,
};
use crate::instance::io::CARTRIDGE_ROM_MAIN_BANK_END;
use crate::cartridge::mapper_name;
use crate::util::{hex_text, push_hex};
use vstd::string::StringExecFns;

pub mod no_rom;
pub mod mbc2;
pub mod mbc3;
pub mod mbc5;

verus! {

pub type MBCResult<T> = Result<T, CartridgeLoadError>;

pub(crate) const TYPICAL_ROM_BANK_SIZE: usize = 0x4000;

pub(crate) const TYPICAL_ROM_ADDRESS_MASK: usize = 0x3FFF;

pub(crate) const TYPICAL_RAM_BANK_SIZE: usize = 0x2000;

pub(crate) const TYPICAL_RAM_ADDRESS_MASK: usize = 0x1FFF;

/// Why a cartridge could not be loaded into a mapper.
#[derive(Debug)]
pub enum CartridgeLoadError {
    CannotIdentifyCartridgeType,
    IncorrectMapper { expected: MapperType, actual: MapperType },
    IncorrectROMSize { expected: usize, actual: usize },
    IncorrectRAMSize { expected: usize, actual: usize },
}

/// The header info of a ROM: it needs the 0x50 header bytes at 0x100, and any header that
/// cannot be decoded leaves the cartridge type unknown.
pub open spec fn spec_header_data_from_rom(rom: Seq<u8>) -> Result<
    CartridgeHeaderInfo,
    CartridgeLoadError,
> {
    if rom.len() < 0x150 {
        Err(CartridgeLoadError::CannotIdentifyCartridgeType)
    } else {
        match spec_read_cartridge_header(rom.subrange(0x100, 0x150)) {
            Ok(info) => Ok(info),
            Err(_) => Err(CartridgeLoadError::CannotIdentifyCartridgeType),
        }
    }
}

/// What `validate` makes of a ROM and RAM for a mapper: the header must decode, name the mapper,
/// and give the sizes of the ROM and the RAM, checked in that order.
pub open spec fn spec_validate(rom: Seq<u8>, ram: Seq<u8>, expected: MapperType) -> Result<
    CartridgeHeaderInfo,
    CartridgeLoadError,
> {
    match spec_header_data_from_rom(rom) {
        Err(e) => Err(e),
        Ok(info) => if info.mapper_type != expected {
            Err(CartridgeLoadError::IncorrectMapper { expected, actual: info.mapper_type })
        } else if rom.len() != info.rom_size {
            Err(CartridgeLoadError::IncorrectROMSize { expected: info.rom_size, actual: rom.len() as usize })
        } else if ram.len() != info.ram_size {
            Err(CartridgeLoadError::IncorrectRAMSize { expected: info.ram_size, actual: ram.len() as usize })
        } else {
            Ok(info)
        },
    }
}

fn get_header_data_from_rom(rom: &[u8]) -> (r: Result<CartridgeHeaderInfo, CartridgeLoadError>)
    ensures
        r == spec_header_data_from_rom(rom@),
{
    if rom.len() < 0x150 {
        return Err(CartridgeLoadError::CannotIdentifyCartridgeType);
    }
    let mut header = [0u8; 0x50];
    let mut i: usize = 0;
    while i < 0x50
        invariant
            i <= 0x50,
            rom@.len() >= 0x150,
            header@.len() == 0x50,
            forall|j: int| 0 <= j < i ==> header@[j] == rom@[0x100 + j],
        decreases 0x50 - i,
    {
        header[i] = rom[0x100 + i];
        i = i + 1;
    }
    assert(header@ =~= rom@.subrange(0x100, 0x150));
    match CartridgeHeaderInfo::read_cartridge_header(&header) {
        Ok(info) => Ok(info),
        Err(_) => Err(CartridgeLoadError::CannotIdentifyCartridgeType),
    }
}

/// Check a ROM and its RAM against the header of the ROM and the mapper that is to run them.
pub(crate) fn validate(rom: &[u8], ram: &[u8], expected_mapper_type: MapperType) -> (r: Result<
    CartridgeHeaderInfo,
    CartridgeLoadError,
>)
    ensures
        r == spec_validate(rom@, ram@, expected_mapper_type),
{
    let info = match get_header_data_from_rom(rom) {
        Ok(info) => info,
        Err(e) => return Err(e),
    };
    if info.mapper_type != expected_mapper_type {
        return Err(
            CartridgeLoadError::IncorrectMapper {
                expected: expected_mapper_type,
                actual: info.mapper_type,
            },
        );
    }
    if rom.len() != info.rom_size {
        return Err(
            CartridgeLoadError::IncorrectROMSize { expected: info.rom_size, actual: rom.len() },
        );
    }
    if ram.len() != info.ram_size {
        return Err(
            CartridgeLoadError::IncorrectRAMSize { expected: info.ram_size, actual: ram.len() },
        );
    }
    Ok(info)
}

/// Offset into ROM of a read of `address` in 0x0000-0x7FFF: the first 16 KiB window shows bank
/// `bank0`, the second bank `bank1`.
pub open spec fn rom_offset(address: u16, bank0: int, bank1: int) -> int {
    if address <= 0x3FFF {
        0x4000 * bank0 + address
    } else {
        0x4000 * bank1 + (address % 0x4000)
    }
}

/// Offset into RAM of `address` in the 8 KiB window that shows RAM bank `bank`.
pub open spec fn ram_offset(address: u16, bank: int) -> int {
    0x2000 * bank + (address % 0x2000)
}

pub(crate) fn typical_rom_offset(address: u16, bank: usize) -> (r: usize)
    requires
        0x4000 * bank + 0x3FFF <= usize::MAX,
    ensures
        r == rom_offset(address, 0, bank as int),
{
    double_bank_rom_offset(address, 0, bank)
}

pub(crate) fn double_bank_rom_offset(address: u16, bank0: usize, bank1: usize) -> (r: usize)
    requires
        0x4000 * bank0 + 0x3FFF <= usize::MAX,
        0x4000 * bank1 + 0x3FFF <= usize::MAX,
    ensures
        r == rom_offset(address, bank0 as int, bank1 as int),
{
    if address <= CARTRIDGE_ROM_MAIN_BANK_END {
        TYPICAL_ROM_BANK_SIZE * bank0 + (address as usize)
    } else {
        let a = address as usize;
        assert(a & 0x3FFF == a % 0x4000) by (bit_vector);
        TYPICAL_ROM_BANK_SIZE * bank1 + (a & TYPICAL_ROM_ADDRESS_MASK)
    }
}

pub(crate) fn typical_ram_offset(address: u16, bank: usize) -> (r: usize)
    requires
        0x2000 * bank + 0x1FFF <= usize::MAX,
    ensures
        r == ram_offset(address, bank as int),
{
    let a = address as usize;
    assert(a & 0x1FFF == a % 0x2000) by (bit_vector);
    TYPICAL_RAM_BANK_SIZE * bank + (a & TYPICAL_RAM_ADDRESS_MASK)
}

} // verus!

verus! {

/// The ROM sizes that a header can give: 32 KiB shifted left by 0 to 8.
pub open spec fn is_header_rom_size(len: int) -> bool {
    len == 0x8000 || len == 0x10000 || len == 0x20000 || len == 0x40000 || len == 0x80000 || len
        == 0x100000 || len == 0x200000 || len == 0x400000 || len == 0x800000
}

/// Sizes that a successful `validate` vouches for: the ROM has one of the sizes a header can
/// give, and ROM and RAM have the sizes that the header gives.
pub proof fn lemma_validated_sizes(rom: Seq<u8>, ram: Seq<u8>, expected: MapperType)
    requires
        spec_validate(rom, ram, expected) is Ok,
    ensures
        is_header_rom_size(rom.len() as int),
        ({
            let info = spec_validate(rom, ram, expected)->Ok_0;
            &&& info.mapper_type == expected
            &&& rom.len() == info.rom_size
            &&& ram.len() == info.ram_size
            &&& info == spec_header_data_from_rom(rom)->Ok_0
        }),
        expected != MapperType::MBC2 && expected != MapperType::MBC7 ==> {
            &&& ram.len() % 0x2000 == 0
            &&& ram.len() <= 0x20000
        },
{
    assert(spec_header_data_from_rom(rom) is Ok);
    assert(rom.len() >= 0x150);
    let header = rom.subrange(0x100, 0x150);
    let read = spec_read_cartridge_header(header);
    assert(read is Ok);
    let code = header[0x48];
    let kind = cartridge_type_of(header[0x47]);
    assert(kind is Some);
    assert(ram_size_of(kind->Some_0, header[0x49]) is Some);
    assert(rom_size_of(code) is Some);
    assert(read->Ok_0.rom_size == rom_size_of(code)->Some_0);
    assert(is_header_rom_size(read->Ok_0.rom_size as int));
    assert(read->Ok_0.ram_size == ram_size_of(kind->Some_0, header[0x49])->Some_0);
}

} // verus!

verus! {

/// The text that describes a load error, as its display form.
pub open spec fn load_error_text(e: CartridgeLoadError) -> Seq<char> {
    match e {
        CartridgeLoadError::CannotIdentifyCartridgeType => "Unable to determine the cartridge type"@,
        CartridgeLoadError::IncorrectMapper { expected, actual } => "Incorrect mapper. Expected "@
            + mapper_name(expected) + ", got "@ + mapper_name(actual) + " instead."@,
        CartridgeLoadError::IncorrectROMSize { expected, actual } => "Incorrect ROM size. Expected "@
            + hex_text(expected as nat, 8) + ", got "@ + hex_text(actual as nat, 8) + " instead."@,
        CartridgeLoadError::IncorrectRAMSize { expected, actual } => "Incorrect RAM size. Expected "@
            + hex_text(expected as nat, 8) + ", got "@ + hex_text(actual as nat, 8) + " instead."@,
    }
}

impl CartridgeLoadError {
    /// The text that describes the error, as its display form.
    pub fn message(&self) -> (r: String)
        ensures
            r@ == load_error_text(*self),
    {
        match self {
            CartridgeLoadError::CannotIdentifyCartridgeType => String::from_str(
                "Unable to determine the cartridge type",
            ),
            CartridgeLoadError::IncorrectMapper { expected, actual } => {
                let mut s = String::from_str("Incorrect mapper. Expected ");
                s.append(expected.name());
                s.append(", got ");
                s.append(actual.name());
                s.append(" instead.");
                s
            },
            CartridgeLoadError::IncorrectROMSize { expected, actual } => {
                let mut s = String::from_str("Incorrect ROM size. Expected ");
                push_hex(&mut s, *expected, 8);
                s.append(", got ");
                push_hex(&mut s, *actual, 8);
                s.append(" instead.");
                s
            },
            CartridgeLoadError::IncorrectRAMSize { expected, actual } => {
                let mut s = String::from_str("Incorrect RAM size. Expected ");
                push_hex(&mut s, *expected, 8);
                s.append(", got ");
                push_hex(&mut s, *actual, 8);
                s.append(" instead.");
                s
            },
        }
    }
}

} // verus!
