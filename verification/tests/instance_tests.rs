use adelie::cartridge::NullCartridge;
use adelie::instance::io::{
    Device, DisableBootROM, IORegisters, Interrupts, JoypadData, TimerDIV, IO,
};
use adelie::instance::{
    clocks_from_nanos, Clock, Emulator, InstantMemoryType, Model, StubbedInterface,
};
use adelie::memory::{BootROM, HighRAM, Memory, NullMemory, VideoRAM, WorkRAM, OAM};

fn bus(model: Model) -> IO<NullCartridge> {
    IO {
        cartridge: NullCartridge,
        boot_rom: BootROM::default(),
        registers: IORegisters::default(),
        video_ram: VideoRAM::default(),
        work_ram: WorkRAM::default(),
        oam: OAM::default(),
        high_ram: HighRAM::default(),
        io_data: IORegisters::default(),
        no_access: NullMemory,
        model,
        double_speed_mode: false,
    }
}

#[test]
fn model_predicates() {
    assert!(Model::DMG.is_dmg());
    assert!(!Model::DMG.is_cgb());
    assert!(Model::CGB.is_cgb());
    assert!(!Model::CGB.is_dmg());
}

#[test]
fn address_decoding() {
    let dmg = bus(Model::DMG);
    let cgb = bus(Model::CGB);
    assert_eq!(dmg.resolve_address_to_device(0x0000), Device::Cartridge);
    assert_eq!(dmg.resolve_address_to_device(0x8000), Device::VideoRAM);
    assert_eq!(dmg.resolve_address_to_device(0xA000), Device::Cartridge);
    assert_eq!(dmg.resolve_address_to_device(0xE000), Device::WorkRAM);
    assert_eq!(dmg.resolve_address_to_device(0xFE9F), Device::OAM);
    assert_eq!(dmg.resolve_address_to_device(0xFEA0), Device::NoAccess);
    assert_eq!(dmg.resolve_address_to_device(0xFF00), Device::JoypadData);
    assert_eq!(dmg.resolve_address_to_device(0xFF05), Device::TimerDIV);
    assert_eq!(dmg.resolve_address_to_device(0xFF0F), Device::Interrupts);
    assert_eq!(dmg.resolve_address_to_device(0xFFFF), Device::Interrupts);
    assert_eq!(dmg.resolve_address_to_device(0xFF50), Device::DisableBootROM);
    assert_eq!(dmg.resolve_address_to_device(0xFF80), Device::HighRAM);
    assert_eq!(dmg.resolve_address_to_device(0xFFFE), Device::HighRAM);
    assert_eq!(dmg.resolve_address_to_device(0xFF7F), Device::Unused);
    assert_eq!(cgb.resolve_address_to_device(0xFF7F), Device::Unused);
    assert_eq!(dmg.resolve_address_to_device(0xFF4F), Device::Unused);
    assert_eq!(cgb.resolve_address_to_device(0xFF4F), Device::VideoRAM);
    assert_eq!(cgb.resolve_address_to_device(0xFF4D), Device::PrepareSpeedSwitch);
    assert_eq!(cgb.resolve_address_to_device(0xFF70), Device::WRAMBankSelect);
    assert_eq!(cgb.resolve_address_to_device(0xFF6C), Device::ObjectPriority);
    assert_eq!(cgb.resolve_address_to_device(0xFF60), Device::Unused);
    // the boot ROM covers the cartridge only while its register is not 0
    let mut covered = bus(Model::CGB);
    covered.io_data.disable_bootrom.byte[0] = 1;
    assert_eq!(covered.resolve_address_to_device(0x00FF), Device::BootROM);
    assert_eq!(covered.resolve_address_to_device(0x0100), Device::Cartridge);
    assert_eq!(covered.resolve_address_to_device(0x0300), Device::BootROM);
    covered.model = Model::DMG;
    assert_eq!(covered.resolve_address_to_device(0x0300), Device::Cartridge);
}

#[test]
fn bus_reads_and_writes() {
    let mut io = bus(Model::DMG);
    io.write(0xFF80, 0x12);
    assert_eq!(io.read(0xFF80), 0x12);
    io.write(0x9ABC, 0x56);
    assert_eq!(io.read(0x9ABC), 0x56);
    io.write(0xFE10, 0x78);
    assert_eq!(io.read(0xFE10), 0x78);
    io.write(0x2000, 0x01); // the null cartridge ignores writes
    assert_eq!(io.read(0x2000), 0xFF);
    io.write(0xC000, 0x34);
    assert_eq!(io.read(0xE000), 0x34);
    io.write(0xFFFF, 0x1F);
    assert_eq!(io.read(0xFFFF), 0x1F);
    assert_eq!(io.read(0xFF0F), 0);
    io.write(0xFF07, 0x05);
    assert_eq!(io.read(0xFF07), 0x05);
    assert_eq!(io.read(0x0000), 0xFF); // no cartridge
    assert_eq!(io.read(0xFF10), 0xFF); // stubbed audio
    assert_eq!(io.read(0xFEA0), 0x00);
    assert_eq!(io.read(0xFF00), 0x3F);
}

#[test]
fn joypad_register() {
    let mut j = JoypadData::default();
    j.a = true;
    j.down = true;
    assert_eq!(j.read(0xFF00), 0x3F);
    j.write(0xFF00, 0x10); // select the d-pad
    assert!(j.select_dpad && !j.select_buttons);
    assert_eq!(j.read(0xFF00), 0x3F & !0x10 & !0x08);
    j.write(0xFF00, 0x20); // select the buttons
    assert_eq!(j.read(0xFF00), 0x3F & !0x20 & !0x01);
}

#[test]
fn disable_boot_rom_register() {
    let mut d = DisableBootROM::default();
    d.write(0xFF50, 1);
    assert_eq!(d.read(0xFF50), 0); // a 0 register takes no write
    d.byte[0] = 2;
    d.write(0xFF50, 7);
    assert_eq!(d.read(0xFF50), 7);
    assert_eq!(d.get_memory().unwrap(), &[7]);
}

#[test]
fn timer_registers() {
    let mut t = TimerDIV::default();
    t.write(0xFF06, 0xF0); // TMA
    t.write(0xFF07, 0x05); // TAC: enabled, 262144 Hz
    t.write(0xFF05, 0x99); // TIMA writes are ignored
    assert_eq!(t.read(0xFF05), 0);
    assert_eq!(t.read(0xFF06), 0xF0);
    assert_eq!(*t.get_timer_control(), 0x05);
    *t.get_div() = 9;
    t.write(0xFF04, 0x55); // DIV writes reset it
    assert_eq!(*t.get_div(), 0);
    *t.get_timer_counter() = 0xFF;
    assert!(!t.tick_timer(15)); // not a multiple of 16
    assert!(t.tick_timer(32));
    assert_eq!(*t.get_timer_counter(), 0xF0); // reloaded from the modulo
    assert!(!t.tick_timer(48));
    assert_eq!(*t.get_timer_counter(), 0xF1);
    t.tick_div(512);
    assert_eq!(*t.get_timer_counter(), 0xF2);
    t.tick_div(513);
    assert_eq!(*t.get_timer_counter(), 0xF2);
    *t.get_timer_control() = 0x01; // disabled
    assert!(!t.tick_timer(0));
    assert_eq!(*t.get_timer_modulo(), 0xF0);
}

#[test]
fn interrupt_registers() {
    let mut i = Interrupts::default();
    i.write(0xFF0F, 0x03);
    i.write(0xFFFF, 0x1F);
    assert_eq!(i.interrupt_requested, 0x03);
    assert_eq!(i.interrupt_enabled, 0x1F);
    assert_eq!(i.read(0xFF0F), 0x03);
    assert_eq!(i.read(0xFFFF), 0x1F);
    i.write(0xFF0F, 0x04);
    assert_eq!(i.interrupt_requested, 0x04);
    assert_eq!(i.interrupt_enabled, 0x1F);
}

#[test]
fn stubbed_interface() {
    let mut s: StubbedInterface<0x42> = StubbedInterface::default();
    s.write(0, 0);
    assert_eq!(s.read(0), 0x42);
    assert_eq!(s.read_out(), 0x42);
}

#[test]
fn emulator_state() {
    let mut boot = [0u8; 256];
    boot[0] = 0x31;
    let mut emu: Emulator<NullCartridge, ()> =
        Emulator::new((), NullCartridge, BootROM::new_dmg(boot), Model::DMG);
    assert!(matches!(emu.get_model(), Model::DMG));
    assert!(!emu.in_double_speed_mode());
    assert_eq!(emu.soc_clock_speed(), 4 * 1024 * 1024);
    assert!(!emu.soc_clock_level());
    emu.tick_soc(false); // same signal: nothing happens
    assert!(!emu.soc_clock_level());
    assert_eq!(emu.get_internal_memory_mut(InstantMemoryType::BootROM)[0], 0x31);
    emu.get_internal_memory_mut(InstantMemoryType::HRAM)[3] = 9;
    assert_eq!(emu.get_internal_memory_mut(InstantMemoryType::HRAM)[3], 9);
    assert_eq!(emu.get_internal_memory_mut(InstantMemoryType::WRAM).len(), 32768);
    assert_eq!(emu.get_internal_memory_mut(InstantMemoryType::VRAM).len(), 0x4000);
    assert_eq!(emu.get_internal_memory_mut(InstantMemoryType::OAM).len(), 0x100);
    assert_eq!(emu.get_cartridge_mut().read(0), 0xFF);
    assert!(emu.take_clock_reading(5));
    assert!(!emu.take_clock_reading(5));
    assert!(!emu.take_clock_reading(4));
    assert!(emu.take_clock_reading(6));
    let _ = emu.total_clocks(8 * 1024 * 1024);
    assert!(matches!(emu.get_model(), Model::DMG));
    let () = emu.into_callbacks_object();
}

#[test]
fn clock_arithmetic() {
    assert_eq!(clocks_from_nanos(1_000_000_000, 4 * 1024 * 1024), 4 * 1024 * 1024);
    assert_eq!(clocks_from_nanos(500, 4 * 1024 * 1024), 2);
    assert_eq!(clocks_from_nanos(0, 123), 0);
    assert_eq!(clocks_from_nanos(123_456, 0), 0);
    assert!(clocks_from_nanos(999, 1_000_000) <= clocks_from_nanos(1000, 1_000_000));
    let clock = Clock::new();
    let a = clock.total_clocks(1_000_000_000);
    let b = clock.total_clocks(1_000_000_000);
    assert!(a <= b);
}
