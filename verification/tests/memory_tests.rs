use adelie::memory::{BootROM, HighRAM, Memory, NullMemory, VideoRAM, WorkRAM, OAM};

#[test]
fn video_ram_round_trip_and_mirroring() {
    let mut vram = VideoRAM::default();
    assert_eq!(vram.get_bank(), Some(0));
    assert_eq!(vram.read(0x8000), 0);
    vram.write(0x8123, 0xAB);
    assert_eq!(vram.read(0x8123), 0xAB);
    // only the low 13 bits of the address select the byte
    assert_eq!(vram.read(0xA123), 0xAB);
    assert_eq!(vram.read(0x8124), 0);
    assert_eq!(vram.get_memory().unwrap()[0x123], 0xAB);
    assert_eq!(vram.get_memory().unwrap().len(), 0x4000);
    vram.get_memory_mut().unwrap()[0x1FFF] = 7;
    assert_eq!(vram.read(0x9FFF), 7);
}

#[test]
fn work_ram_banks() {
    let mut wram = WorkRAM::default();
    assert_eq!(wram.get_bank(), Some(1));
    wram.write(0xC010, 1); // bank 0
    wram.write(0xD010, 2); // bank 1
    assert_eq!(wram.read(0xC010), 1);
    assert_eq!(wram.read(0xD010), 2);
    // the echo at 0xE000-0xFDFF shows the same bytes
    assert_eq!(wram.read(0xE010), 1);
    assert_eq!(wram.read(0xF010), 2);
    let bytes = wram.get_memory().unwrap();
    assert_eq!(bytes.len(), 32768);
    assert_eq!(bytes[0x0010], 1);
    assert_eq!(bytes[0x1010], 2);
}

#[test]
fn oam_and_high_ram() {
    let mut oam = OAM::default();
    oam.write(0xFE9F, 0x11);
    assert_eq!(oam.read(0xFE9F), 0x11);
    assert_eq!(oam.get_memory().unwrap().len(), 0xA0);
    assert_eq!(oam.get_memory().unwrap()[0x9F], 0x11);
    oam.get_memory_mut().unwrap()[0] = 5;
    assert_eq!(oam.read(0xFE00), 5);

    let mut hram = HighRAM::default();
    hram.write(0xFF80, 0x22);
    hram.write(0xFFFE, 0x33);
    assert_eq!(hram.read(0xFF80), 0x22);
    assert_eq!(hram.read(0xFFFE), 0x33);
    assert_eq!(hram.get_memory().unwrap().len(), 0x7F);
    hram.get_memory_mut().unwrap()[1] = 0x44;
    assert_eq!(hram.read(0xFF81), 0x44);
}

#[test]
fn null_memory_reads_zero() {
    let mut m = NullMemory;
    m.write(0xFEA0, 0xFF);
    assert_eq!(m.read(0xFEA0), 0x00);
}

#[test]
fn boot_rom_layouts() {
    let mut dmg_data = [0u8; 256];
    dmg_data[0] = 0x31;
    dmg_data[255] = 0x50;
    let mut dmg = BootROM::new_dmg(dmg_data);
    assert_eq!(dmg.read(0x0000), 0x31);
    assert_eq!(dmg.read(0x00FF), 0x50);
    assert_eq!(dmg.read(0x0200), 0x00);
    assert_eq!(dmg.read(0x0100), 0xFF); // between the parts
    assert_eq!(dmg.read(0x0900), 0xFF); // past the high part

    let mut padded = [0u8; 2560];
    for (i, b) in padded.iter_mut().enumerate() {
        *b = (i % 251) as u8;
    }
    let mut cgb = BootROM::new_cgb_padded(padded);
    assert_eq!(cgb.read(0x0010), padded[0x10]);
    assert_eq!(cgb.read(0x0200), padded[768]);
    assert_eq!(cgb.read(0x08FF), padded[2559]);
    cgb.write(0x0010, 0);
    assert_eq!(cgb.read(0x0010), padded[0x10]);

    let mut plain = [0u8; 2048];
    plain[256] = 0x77;
    let mut cgb2 = BootROM::new_cgb(plain);
    assert_eq!(cgb2.read(0x0200), 0x77);
    assert_eq!(cgb2.get_memory().unwrap().len(), 2048);
    let mut zero = BootROM::default();
    assert_eq!(zero.read(0x0000), 0);
}
