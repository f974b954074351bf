use adelie::cartridge::mbc::mbc2::MBC2;
use adelie::cartridge::mbc::mbc3::{RTCData, MBC3};
use adelie::cartridge::mbc::mbc5::MBC5;
use adelie::cartridge::mbc::no_rom::NoROM;
use adelie::cartridge::mbc::CartridgeLoadError;
use adelie::cartridge::{
    Cartridge, CartridgeHeaderError, CartridgeHeaderInfo, MapperType, NullCartridge,
};
use adelie::memory::Memory;

const LOGO: [u8; 48] = [
    0xCE, 0xED, 0x66, 0x66, 0xCC, 0x0D, 0x00, 0x0B, 0x03, 0x73, 0x00, 0x83, 0x00, 0x0C, 0x00, 0x0D,
    0x00, 0x08, 0x11, 0x1F, 0x88, 0x89, 0x00, 0x0E, 0xDC, 0xCC, 0x6E, 0xE6, 0xDD, 0xDD, 0xD9, 0x99,
    0xBB, 0xBB, 0x67, 0x63, 0x6E, 0x0E, 0xEC, 0xCC, 0xDD, 0xDC, 0x99, 0x9F, 0xBB, 0xB9, 0x33, 0x3E,
];

fn header(kind: u8, rom_code: u8, ram_code: u8) -> [u8; 0x50] {
    let mut h = [0u8; 0x50];
    h[4..0x34].copy_from_slice(&LOGO);
    h[0x47] = kind;
    h[0x48] = rom_code;
    h[0x49] = ram_code;
    let mut checksum = 0u8;
    for i in 0x34..=0x4C {
        checksum = checksum.wrapping_sub(h[i]).wrapping_sub(1);
    }
    h[0x4D] = checksum;
    h
}

/// A ROM of 32 KiB shifted left by `rom_code` whose byte at each offset names its 16 KiB bank.
fn rom(kind: u8, rom_code: u8, ram_code: u8) -> Vec<u8> {
    let size = 0x8000usize << rom_code;
    let mut r: Vec<u8> = (0..size).map(|i| (i / 0x4000) as u8).collect();
    r[0x100..0x150].copy_from_slice(&header(kind, rom_code, ram_code));
    r
}

#[test]
fn header_decodes_mbc5_with_rumble() {
    let info = CartridgeHeaderInfo::read_cartridge_header(&header(0x1E, 2, 3)).unwrap();
    assert_eq!(info.mapper_type, MapperType::MBC5);
    assert_eq!(info.rom_size, 0x20000);
    assert_eq!(info.ram_size, 0x8000);
    assert!(info.has_rumble);
    assert!(info.has_save_data);
    assert!(!info.has_rtc);
    assert!(info.bootable);
}

#[test]
fn header_ram_sizes_and_mbc2() {
    let sizes = [(2u8, 0x2000usize), (3, 0x8000), (4, 0x20000), (5, 0x10000)];
    for (code, size) in sizes {
        let info = CartridgeHeaderInfo::read_cartridge_header(&header(0x03, 1, code)).unwrap();
        assert_eq!(info.ram_size, size);
    }
    let mbc2 = CartridgeHeaderInfo::read_cartridge_header(&header(0x06, 1, 0x77)).unwrap();
    assert_eq!(mbc2.mapper_type, MapperType::MBC2);
    assert_eq!(mbc2.ram_size, 256);
    assert!(mbc2.has_save_data);
    let no_ram = CartridgeHeaderInfo::read_cartridge_header(&header(0x01, 1, 0x77)).unwrap();
    assert_eq!(no_ram.ram_size, 0);
    let mbc7 = CartridgeHeaderInfo::read_cartridge_header(&header(0x22, 1, 0)).unwrap();
    assert_eq!(mbc7.mapper_type, MapperType::MBC7);
    assert_eq!(mbc7.ram_size, 256);
    assert!(mbc7.has_rumble);
}

#[test]
fn header_rom_size_doubles_from_32k() {
    for code in 0..=8u8 {
        let info = CartridgeHeaderInfo::read_cartridge_header(&header(0x00, code, 0)).unwrap();
        assert_eq!(info.rom_size, (32 * 1024) << code);
    }
    assert_eq!(
        CartridgeHeaderInfo::read_cartridge_header(&header(0x00, 8, 0)).unwrap().rom_size,
        8 * 1024 * 1024
    );
}

#[test]
fn header_errors() {
    assert_eq!(
        CartridgeHeaderInfo::read_cartridge_header(&header(0x04, 1, 0)).err(),
        Some(CartridgeHeaderError::UnknownMapper(0x04))
    );
    assert_eq!(
        CartridgeHeaderInfo::read_cartridge_header(&header(0x02, 1, 7)).err(),
        Some(CartridgeHeaderError::UnknownRAMSize(7))
    );
    assert_eq!(
        CartridgeHeaderInfo::read_cartridge_header(&header(0x02, 9, 7)).err(),
        Some(CartridgeHeaderError::UnknownRAMSize(7))
    );
    assert_eq!(
        CartridgeHeaderInfo::read_cartridge_header(&header(0x02, 9, 2)).err(),
        Some(CartridgeHeaderError::UnknownROMSize(9))
    );
}

#[test]
fn header_bootable_needs_logo_and_checksum() {
    let mut h = header(0x00, 1, 0);
    h[0x4D] = h[0x4D].wrapping_add(1);
    assert!(!CartridgeHeaderInfo::read_cartridge_header(&h).unwrap().bootable);
    let mut h = header(0x00, 1, 0);
    h[0x10] ^= 1;
    assert!(!CartridgeHeaderInfo::read_cartridge_header(&h).unwrap().bootable);
    // an all-zero header: ROM only, 32 KiB, no logo
    let info = CartridgeHeaderInfo::read_cartridge_header(&[0u8; 0x50]).unwrap();
    assert!(!info.bootable);
    assert_eq!(info.rom_size, 0x8000);
}

#[test]
fn header_error_messages() {
    assert_eq!(CartridgeHeaderError::UnknownMapper(0xAB).message(), "Unknown mapper (0xAB)");
    assert_eq!(CartridgeHeaderError::UnknownRAMSize(7).message(), "Unknown RAM size (0x7)");
    assert_eq!(CartridgeHeaderError::UnknownROMSize(0).message(), "Unknown ROM size (0x0)");
}

#[test]
fn load_error_messages() {
    assert_eq!(
        CartridgeLoadError::CannotIdentifyCartridgeType.message(),
        "Unable to determine the cartridge type"
    );
    assert_eq!(
        CartridgeLoadError::IncorrectMapper { expected: MapperType::MBC5, actual: MapperType::ROMOnly }
            .message(),
        "Incorrect mapper. Expected MBC5, got ROMOnly instead."
    );
    assert_eq!(
        CartridgeLoadError::IncorrectROMSize { expected: 0x8000, actual: 0x12345678 }.message(),
        "Incorrect ROM size. Expected 0x008000, got 0x12345678 instead."
    );
    assert_eq!(
        CartridgeLoadError::IncorrectRAMSize { expected: 0, actual: 0x2000 }.message(),
        "Incorrect RAM size. Expected 0x000000, got 0x002000 instead."
    );
}

#[test]
fn load_errors() {
    let mut ram: Vec<u8> = vec![];
    let short = vec![0u8; 0x14F];
    assert!(matches!(
        NoROM::new(&short, &mut ram),
        Err(CartridgeLoadError::CannotIdentifyCartridgeType)
    ));
    let bad_header = rom(0x04, 1, 0);
    assert!(matches!(
        NoROM::new(&bad_header, &mut ram),
        Err(CartridgeLoadError::CannotIdentifyCartridgeType)
    ));
    let r = rom(0x19, 1, 0);
    assert!(matches!(
        NoROM::new(&r, &mut ram),
        Err(CartridgeLoadError::IncorrectMapper { expected: MapperType::ROMOnly, actual: MapperType::MBC5 })
    ));
    let mut r = rom(0x19, 1, 0);
    r.truncate(0x8000);
    assert!(matches!(
        MBC5::new(&r, &mut ram),
        Err(CartridgeLoadError::IncorrectROMSize { expected: 0x10000, actual: 0x8000 })
    ));
    let r = rom(0x1A, 1, 2);
    assert!(matches!(
        MBC5::new(&r, &mut ram),
        Err(CartridgeLoadError::IncorrectRAMSize { expected: 0x2000, actual: 0 })
    ));
}

#[test]
fn no_rom_reads_and_writes() {
    let r = rom(0x08, 0, 2); // 32 KiB
    let mut ram = vec![0u8; 0x2000];
    let mut cart = NoROM::new(&r, &mut ram).unwrap();
    assert_eq!(cart.read(0x0000), 0);
    assert_eq!(cart.read(0x4000), 1);
    assert_eq!(cart.read(0x0147), 0x08);
    cart.write(0xA123, 0x5A);
    assert_eq!(cart.read(0xA123), 0x5A);
    assert_eq!(cart.read(0xC123), 0x5A); // the RAM window repeats every 8 KiB
    cart.write(0x1000, 0x77); // below 0x4000: ignored
    assert_eq!(cart.read(0xB000), 0);
    cart.write(0x5000, 0x66); // 0x4000-0x7FFF reaches RAM at 0x1000
    assert_eq!(cart.read(0xB000), 0x66);
    assert_eq!(cart.read(0x5000), 1); // the ROM is unchanged
    assert_eq!(cart.rom_bank(), None);
    assert_eq!(cart.ram_data().unwrap()[0x1000], 0x66);
    cart.ram_data_mut().unwrap()[0] = 9;
    assert_eq!(cart.read(0xA000), 9);
    drop(cart);
    assert_eq!(ram[0x123], 0x5A);
}

#[test]
fn no_rom_without_ram() {
    let r = rom(0x00, 0, 0);
    let mut ram: Vec<u8> = vec![];
    let mut cart = NoROM::new(&r, &mut ram).unwrap();
    assert_eq!(cart.read(0xA000), 0xFF);
    cart.write(0xA000, 1);
    assert_eq!(cart.read(0xA000), 0xFF);
    assert!(cart.ram_data().is_none());
}

#[test]
fn mbc2_banks_and_half_byte_ram() {
    let r = rom(0x05, 1, 0); // 64 KiB: banks 0-3
    let mut ram = [0u8; 0x100];
    let mut cart = MBC2::new(&r, &mut ram).unwrap();
    assert_eq!(cart.read(0x4000), 1);
    cart.write(0x2100, 3);
    assert_eq!(cart.read(0x4000), 3);
    cart.write(0x2100, 0); // clamped up to 1
    assert_eq!(cart.read(0x7FFF), 1);
    cart.write(0x2100, 0x1F); // 15, clamped down to the last bank
    assert_eq!(cart.read(0x4000), 3);
    cart.write(0x2100, 2);
    assert_eq!(cart.read(0x4000), 2);
    assert_eq!(cart.read(0xA000), 0xFF); // RAM disabled
    cart.write(0x0000, 0x0A);
    cart.write(0xA002, 0xB7);
    assert_eq!(cart.read(0xA002), 0x7);
    assert_eq!(cart.ram_data().unwrap()[1], 0x07);
    cart.write(0xA003, 0xC5); // the high half of the same byte
    assert_eq!(cart.read(0xA003), 0x5);
    assert_eq!(cart.read(0xA002), 0x7);
    assert_eq!(cart.ram_data().unwrap()[1], 0x57);
    assert_eq!(cart.read(0xA203), 0x5); // 512 cells repeat over the window
    cart.write(0x0000, 0x00);
    assert_eq!(cart.read(0xA002), 0xFF);
    assert_eq!(cart.rom_bank_size(), Some(0x4000));
}

#[test]
fn mbc3_banks_ram_and_clock() {
    let r = rom(0x10, 2, 3); // MBC3+TIMER+RAM+BATTERY, 128 KiB, 32 KiB RAM
    let mut ram = vec![0u8; 0x8000];
    let start = RTCData { seconds: 1, minutes: 2, hours: 3, days_low: 4, flags: 5 };
    let mut cart = MBC3::new(&r, &mut ram, Some(start)).unwrap();
    assert_eq!(cart.get_rtc().unwrap().hours, 3);
    assert_eq!(cart.get_latched_rtc().unwrap().hours, 0);
    cart.write(0x2000, 5);
    assert_eq!(cart.read(0x4000), 5);
    cart.write(0x2000, 0x80); // 0, clamped up to 1
    assert_eq!(cart.read(0x4000), 1);
    cart.write(0x2000, 0x7F); // 127, clamped down to the last of the 8 banks
    assert_eq!(cart.read(0x4000), 7);
    cart.write(0x0000, 0x0A);
    cart.write(0x4000, 2);
    cart.write(0xA010, 0x42);
    assert_eq!(cart.read(0xA010), 0x42);
    assert_eq!(cart.ram_data().unwrap()[0x4010], 0x42);
    // select the hours register: it reads the latched copy
    cart.write(0x4000, 0x0A);
    assert_eq!(cart.read(0xA000), 0);
    cart.write(0xA000, 9); // writes the clock itself
    assert_eq!(cart.get_rtc().unwrap().hours, 9);
    assert_eq!(cart.read(0xA000), 0);
    cart.write(0x6000, 0);
    cart.write(0x6000, 1);
    assert_eq!(cart.read(0xA000), 9);
    assert_eq!(cart.get_latched_rtc().unwrap().seconds, 1);
    cart.set_latched_rtc(RTCData { seconds: 7, minutes: 0, hours: 0, days_low: 0, flags: 0 });
    cart.write(0x4000, 0x08);
    assert_eq!(cart.read(0xA000), 7);
    cart.set_rtc(RTCData { seconds: 0, minutes: 0, hours: 0, days_low: 0, flags: 0x40 });
    assert_eq!(cart.get_rtc().unwrap().flags, 0x40);
    cart.write(0x4000, 0x0D); // not a mode: keeps the seconds register
    assert_eq!(cart.read(0xA000), 7);
}

#[test]
fn mbc3_clock_without_ram() {
    let r = rom(0x0F, 1, 0); // MBC3+TIMER+BATTERY, no RAM
    let mut ram: Vec<u8> = vec![];
    let mut cart = MBC3::new(&r, &mut ram, None).unwrap();
    cart.write(0x4000, 0x08); // seconds
    cart.write(0x0000, 0x0A); // a clock is enough to enable the window
    assert_eq!(cart.read(0xA000), cart.get_latched_rtc().unwrap().seconds);
    assert_eq!(cart.read(0xA000), 0);
    cart.write(0xA000, 30);
    cart.write(0x6000, 0);
    cart.write(0x6000, 1);
    assert_eq!(cart.read(0xA000), 30);
    cart.write(0x0000, 0x00);
    assert_eq!(cart.read(0xA000), 0xFF);
}

#[test]
fn mbc3_clock_set_without_latched_copy() {
    let r = rom(0x11, 1, 0); // MBC3 without clock or RAM
    let mut ram: Vec<u8> = vec![];
    let mut cart = MBC3::new(&r, &mut ram, None).unwrap();
    cart.set_rtc(RTCData { seconds: 5, minutes: 0, hours: 0, days_low: 0, flags: 0 });
    cart.write(0x4000, 0x08);
    cart.write(0x0000, 0x0A);
    assert!(cart.get_latched_rtc().is_none());
    assert_eq!(cart.read(0xA000), 0xFF);
}

#[test]
fn mbc3_without_clock_and_ram_size_check() {
    let r = rom(0x11, 1, 0);
    let mut ram: Vec<u8> = vec![];
    let mut cart = MBC3::new(&r, &mut ram, Some(RTCData::default())).unwrap();
    assert!(cart.get_rtc().is_none());
    assert!(cart.get_latched_rtc().is_none());
    cart.write(0x0000, 0x0A);
    assert_eq!(cart.read(0xA000), 0xFF);
    let r = rom(0x13, 1, 2); // 8 KiB of RAM: not four banks
    let mut ram = vec![7u8; 0x2000];
    assert!(matches!(
        MBC3::new(&r, &mut ram, None),
        Err(CartridgeLoadError::IncorrectRAMSize { expected: 0x8000, actual: 0x2000 })
    ));
    assert!(ram.iter().all(|b| *b == 7));
}

#[test]
fn mbc5_banks_rumble_and_ram() {
    let r = rom(0x1D, 2, 4); // MBC5+RUMBLE+RAM, 128 KiB ROM (8 banks), 128 KiB RAM (16 banks)
    let mut ram = vec![0u8; 0x20000];
    let mut cart = MBC5::new(&r, &mut ram).unwrap();
    assert_eq!(cart.rumble_on(), Some(false));
    assert_eq!(cart.rom_bank(), Some(1));
    cart.write(0x2000, 6);
    assert_eq!(cart.read(0x4000), 6);
    cart.write(0x2000, 0x0D); // masked by 7
    assert_eq!(cart.rom_bank(), Some(5));
    cart.write(0x3000, 1); // the ninth bit is masked away
    assert_eq!(cart.rom_bank(), Some(5));
    cart.write(0x4000, 0x0F); // the rumble bit is not a RAM bank bit
    assert_eq!(cart.ram_bank(), Some(7));
    assert_eq!(cart.rumble_on(), Some(true));
    cart.write(0x4000, 0x03);
    assert_eq!(cart.rumble_on(), Some(false));
    assert_eq!(cart.read(0xA000), 0xFF);
    cart.write(0x0000, 0x1A); // low half-byte 0xA enables
    cart.write(0xA555, 0x99);
    assert_eq!(cart.read(0xA555), 0x99);
    assert_eq!(cart.ram_data().unwrap()[3 * 0x2000 + 0x555], 0x99);
    cart.write(0x0000, 0x00);
    assert_eq!(cart.read(0xA555), 0xFF);
    assert_eq!(cart.ram_bank_size(), Some(0x2000));
}

#[test]
fn mbc5_without_rumble_or_ram() {
    let r = rom(0x19, 1, 0);
    let mut ram: Vec<u8> = vec![];
    let mut cart = MBC5::new(&r, &mut ram).unwrap();
    assert_eq!(cart.rumble_on(), None);
    cart.write(0x4000, 0x0F);
    assert_eq!(cart.rumble_on(), None);
    assert_eq!(cart.ram_bank(), None);
    cart.write(0x0000, 0x0A); // no RAM: stays disabled
    assert_eq!(cart.read(0xA000), 0xFF);
    assert!(cart.ram_data().is_none());
}

#[test]
fn null_cartridge_reads_ff() {
    let mut cart = NullCartridge;
    assert_eq!(cart.read(0x1234), 0xFF);
    cart.write(0x1234, 0);
    assert_eq!(cart.read(0x1234), 0xFF);
    assert!(!cart.reset());
    assert!(cart.rom_data().is_none());
    assert!(cart.get_memory().is_none());
}

#[test]
fn mbc5_nine_bit_rom_bank() {
    let r = rom(0x19, 8, 0); // 8 MiB: 512 banks
    let mut ram: Vec<u8> = vec![];
    let mut cart = MBC5::new(&r, &mut ram).unwrap();
    cart.write(0x2000, 0xFF);
    cart.write(0x3000, 0x01);
    assert_eq!(cart.rom_bank(), Some(0x1FF));
    assert_eq!(cart.read(0x4000), 0xFF); // bank 511 as a byte
    cart.write(0x2000, 0x02);
    assert_eq!(cart.rom_bank(), Some(0x102));
    assert_eq!(cart.read(0x4000), 0x02); // bank 258 as a byte
    cart.write(0x3000, 0x00);
    assert_eq!(cart.rom_bank(), Some(0x02));
}

#[test]
fn mbc3_on_8_mib_rom() {
    let r = rom(0x11, 8, 0);
    let mut ram: Vec<u8> = vec![];
    let mut cart = MBC3::new(&r, &mut ram, None).unwrap();
    cart.write(0x2000, 0x7F);
    assert_eq!(cart.read(0x4000), 0x7F);
}
