//! The system bus: the I/O registers and the decoding of addresses to devices.

use vstd::prelude::*;
use crate::cartridge::Cartridge;
use crate::instance::{Model, SOC_BASE_CLOCK_SPEED, StubbedInterface};
use crate::memory::{
    BankedView, BootROM, HighRAM, Memory, NullMemory, OAM, VideoRAM, WorkRAM, wram_index,
};

verus! {

/// Last address of the cartridge ROM's fixed bank.
pub const CARTRIDGE_ROM_MAIN_BANK_END: u16 = 0x3FFF;

/// Last address of cartridge ROM.
pub const CARTRIDGE_ROM_END: u16 = 0x7FFF;

/// First address of cartridge RAM.
pub const CARTRIDGE_RAM_START: u16 = 0xA000;

/// Last address of cartridge RAM.
pub const CARTRIDGE_RAM_END: u16 = 0xBFFF;

} // verus!

verus! {

/// 0 or 1 for a boolean.
pub open spec fn bit(b: bool) -> int {
    if b {
        1
    } else {
        0
    }
}

fn bit_u8(b: bool) -> (r: u8)
    ensures
        r == bit(b),
{
    if b {
        1
    } else {
        0
    }
}

/// The state of the joypad: which button group is selected and which buttons are held.
#[derive(Copy, Clone)]
pub struct JoypadData {
    pub select_buttons: bool,
    pub select_dpad: bool,
    pub a: bool,
    pub b: bool,
    pub start: bool,
    pub select: bool,
    pub up: bool,
    pub down: bool,
    pub left: bool,
    pub right: bool,
}

/// A joypad input line reads 0 when a held button of a selected group drives it.
pub open spec fn joypad_line(j: JoypadData, dpad_button: bool, button: bool) -> bool {
    !((j.select_dpad && dpad_button) || (j.select_buttons && button))
}

/// The joypad register: bits 0-3 are the input lines (right/A, left/B, up/select, down/start),
/// bit 4 is clear while the d-pad is selected, bit 5 clear while the buttons are, bits 6-7 are 0.
pub open spec fn joypad_value(j: JoypadData) -> u8 {
    (bit(joypad_line(j, j.right, j.a)) + 2 * bit(joypad_line(j, j.left, j.b)) + 4 * bit(
        joypad_line(j, j.up, j.select),
    ) + 8 * bit(joypad_line(j, j.down, j.start)) + 16 * bit(!j.select_dpad) + 32 * bit(
        !j.select_buttons,
    )) as u8
}

impl Default for JoypadData {
    fn default() -> (r: Self)
        ensures
            r == (JoypadData {
                select_buttons: false,
                select_dpad: false,
                a: false,
                b: false,
                start: false,
                select: false,
                up: false,
                down: false,
                left: false,
                right: false,
            }),
    {
        JoypadData {
            select_buttons: false,
            select_dpad: false,
            a: false,
            b: false,
            start: false,
            select: false,
            up: false,
            down: false,
            left: false,
            right: false,
        }
    }
}

impl View for JoypadData {
    type V = JoypadData;

    open spec fn view(&self) -> JoypadData {
        *self
    }
}

impl Memory for JoypadData {
    open spec fn wf(&self) -> bool {
        true
    }

    open spec fn can_read(&self, address: u16) -> bool {
        true
    }

    open spec fn read_value(&self, address: u16) -> u8 {
        joypad_value(*self)
    }

    open spec fn after_read(&self, address: u16) -> JoypadData {
        *self
    }

    open spec fn can_write(&self, address: u16, data: u8) -> bool {
        true
    }

    /// Bit 4 of the data selects the d-pad, bit 5 the buttons.
    open spec fn after_write(&self, address: u16, data: u8) -> JoypadData {
        JoypadData {
            select_dpad: (data / 16) % 2 == 1,
            select_buttons: (data / 32) % 2 == 1,
            ..*self
        }
    }

    fn read(&mut self, _address: u16) -> (r: u8) {
        let line0 = bit_u8(!((self.select_dpad && self.right) || (self.select_buttons && self.a)));
        let line1 = bit_u8(!((self.select_dpad && self.left) || (self.select_buttons && self.b)));
        let line2 = bit_u8(
            !((self.select_dpad && self.up) || (self.select_buttons && self.select)),
        );
        let line3 = bit_u8(
            !((self.select_dpad && self.down) || (self.select_buttons && self.start)),
        );
        let dpad = bit_u8(!self.select_dpad);
        let buttons = bit_u8(!self.select_buttons);
        line0 + 2 * line1 + 4 * line2 + 8 * line3 + 16 * dpad + 32 * buttons
    }

    fn write(&mut self, _address: u16, data: u8) {
        assert((data >> 4) & 1 != 0 <==> (data / 16) % 2 == 1) by (bit_vector);
        assert((data >> 4) & 2 != 0 <==> (data / 32) % 2 == 1) by (bit_vector);
        let data = data >> 4;
        self.select_dpad = data & 1 != 0;
        self.select_buttons = data & 2 != 0;
    }
}

/// The register that unmaps the boot ROM.
#[derive(Copy, Clone)]
pub struct DisableBootROM {
    pub byte: [u8; 1],
}

impl Default for DisableBootROM {
    fn default() -> (r: Self)
        ensures
            r@ == 0,
    {
        Self { byte: [0;1] }
    }
}

impl View for DisableBootROM {
    type V = u8;

    open spec fn view(&self) -> u8 {
        self.byte@[0]
    }
}

impl Memory for DisableBootROM {
    open spec fn wf(&self) -> bool {
        true
    }

    open spec fn can_read(&self, address: u16) -> bool {
        true
    }

    open spec fn read_value(&self, address: u16) -> u8 {
        self@
    }

    open spec fn after_read(&self, address: u16) -> u8 {
        self@
    }

    open spec fn can_write(&self, address: u16, data: u8) -> bool {
        true
    }

    /// Only a register that is not 0 takes a write.
    open spec fn after_write(&self, address: u16, data: u8) -> u8 {
        if self@ != 0 {
            data
        } else {
            self@
        }
    }

    fn read(&mut self, _address: u16) -> (r: u8) {
        self.byte[0]
    }

    fn write(&mut self, _address: u16, data: u8) {
        if self.byte[0] != 0 {
            self.byte[0] = data;
        }
    }

    fn get_memory(&self) -> (r: Option<&[u8]>)
        ensures
            r matches Some(s) && s@ == seq![self@],
    {
        assert(self.byte@ =~= seq![self@]);
        Some(self.byte.as_slice())
    }

    fn get_memory_mut(&mut self) -> (r: Option<&mut [u8]>)
        ensures
            r is Some,
            r.unwrap()@ == seq![old(self)@],
            final(r.unwrap())@.len() == 1,
            final(self)@ == final(r.unwrap())@[0],
    {
        assert(self.byte@ =~= seq![self@]);
        Some(&mut self.byte)
    }
}

/// Once the register is 0 it stays 0: writes do not change it.
pub proof fn law_disable_bootrom_zero_sticks(d: DisableBootROM, address: u16, data: u8)
    requires
        d@ == 0,
    ensures
        d.after_write(address, data) == 0,
{
}

/// Soc clocks between two steps of the timer counter for a timer control value, for the three
/// rates that `tick_timer` handles (4096, 262144 and 65536 Hz at 4 MiHz).
pub open spec fn timer_period(control: u8) -> int {
    if control % 4 == 0 {
        1024
    } else if control % 4 == 1 {
        16
    } else {
        64
    }
}

/// The timer is enabled by bit 2 of its control value.
pub open spec fn timer_enabled(control: u8) -> bool {
    (control / 4) % 2 == 1
}

/// The timer registers: divider, counter, modulo and control, in that order.
#[derive(Copy, Clone)]
pub struct TimerDIV {
    value: [u8; 4],
}

impl View for TimerDIV {
    type V = Seq<u8>;

    closed spec fn view(&self) -> Seq<u8> {
        self.value@
    }
}

impl TimerDIV {
    /// Advance by one SoC clock numbered `soc_clock_count`: every 256 clocks (16384 Hz) the
    /// counter register steps, wrapping at 256.
    pub fn tick_div(&mut self, soc_clock_count: u32)
        requires
            old(self)@.len() == 4,
        ensures
            final(self)@ == if soc_clock_count % 256 == 0 {
                old(self)@.update(1, ((old(self)@[1] + 1) % 256) as u8)
            } else {
                old(self)@
            },
    {
        let tick_div = soc_clock_count % (SOC_BASE_CLOCK_SPEED / 16384);
        if tick_div == 0 {
            let div = self.get_timer_counter();
            *div = div.wrapping_add(1);
        }
    }

    /// Advance the timer by one SoC clock numbered `soc_clock_count`. While it is enabled, the
    /// counter steps at the clocks that are multiples of its period; on passing 255 it is
    /// reloaded from the modulo, and the result says that it overflowed.
    pub fn tick_timer(&mut self, soc_clock_count: u32) -> (r: bool)
        requires
            old(self)@.len() == 4,
            timer_enabled(old(self)@[3]) ==> old(self)@[3] % 4 != 3,
        ensures
            ({
                let v = old(self)@;
                let steps = timer_enabled(v[3]) && (soc_clock_count as int) % timer_period(v[3]) == 0;
                &&& r == (steps && v[1] == 255)
                &&& final(self)@ == if !steps {
                    v
                } else if v[1] == 255 {
                    v.update(1, v[2])
                } else {
                    v.update(1, (v[1] + 1) as u8)
                }
            }),
    {
        let control = *self.get_timer_control();
        assert(control & 0b100 != 0 <==> (control / 4) % 2 == 1) by (bit_vector);
        assert(control & 0b11 == control % 4) by (bit_vector);
        if (control & 0b100) != 0 {
            let rate: u32 = if control & 0b11 == 0 {
                4096
            } else if control & 0b11 == 1 {
                262144
            } else {
                65536
            };
            let period = SOC_BASE_CLOCK_SPEED / rate;
            assert(period == timer_period(control)) by {
                assert(0x400000u32 / 4096 == 1024);
                assert(0x400000u32 / 262144 == 16);
                assert(0x400000u32 / 65536 == 64);
            }
            let tick_tima = soc_clock_count % period;
            if tick_tima == 0 {
                let modulo = *self.get_timer_modulo();
                let c = self.get_timer_counter();
                let overflowed = *c == 255;
                let new_c = c.wrapping_add(1);
                *c = new_c;
                if overflowed {
                    *c = modulo;
                }
                return overflowed;
            }
        }
        false
    }

    /// The divider register.
    pub fn get_div(&mut self) -> (r: &mut u8)
        requires
            old(self)@.len() == 4,
        ensures
            *r == old(self)@[0],
            final(self)@ == old(self)@.update(0, *final(r)),
    {
        &mut self.value[0]
    }

    /// The timer counter register.
    pub fn get_timer_counter(&mut self) -> (r: &mut u8)
        requires
            old(self)@.len() == 4,
        ensures
            *r == old(self)@[1],
            final(self)@ == old(self)@.update(1, *final(r)),
    {
        &mut self.value[1]
    }

    /// The timer modulo register.
    pub fn get_timer_modulo(&mut self) -> (r: &mut u8)
        requires
            old(self)@.len() == 4,
        ensures
            *r == old(self)@[2],
            final(self)@ == old(self)@.update(2, *final(r)),
    {
        &mut self.value[2]
    }

    /// The timer control register.
    pub fn get_timer_control(&mut self) -> (r: &mut u8)
        requires
            old(self)@.len() == 4,
        ensures
            *r == old(self)@[3],
            final(self)@ == old(self)@.update(3, *final(r)),
    {
        &mut self.value[3]
    }
}

impl Default for TimerDIV {
    fn default() -> (r: Self)
        ensures
            r@ == seq![0u8, 0, 0, 0],
    {
        let r = Self { value: [0, 0, 0, 0] };
        assert(r.value@ =~= seq![0u8, 0, 0, 0]);
        r
    }
}

impl Memory for TimerDIV {
    open spec fn wf(&self) -> bool {
        self@.len() == 4
    }

    open spec fn can_read(&self, address: u16) -> bool {
        true
    }

    /// The register that the low two bits of the address select.
    open spec fn read_value(&self, address: u16) -> u8 {
        self@[(address % 4) as int]
    }

    open spec fn after_read(&self, address: u16) -> Seq<u8> {
        self@
    }

    open spec fn can_write(&self, address: u16, data: u8) -> bool {
        true
    }

    /// Writing the divider resets it, writes to the counter are ignored, modulo and control
    /// take the data.
    open spec fn after_write(&self, address: u16, data: u8) -> Seq<u8> {
        if address % 4 == 0 {
            self@.update(0, 0)
        } else if address % 4 == 1 {
            self@
        } else {
            self@.update((address % 4) as int, data)
        }
    }

    fn read(&mut self, address: u16) -> (r: u8) {
        let i = address & 3;
        assert(address & 3 == address % 4) by (bit_vector);
        if i == 0 {
            // DIV
            self.value[0]
        } else if i == 1 {
            // TIMA
            self.value[1]
        } else if i == 2 {
            // TMA
            self.value[2]
        } else {
            // TAC
            self.value[3]
        }
    }

    fn write(&mut self, address: u16, data: u8) {
        let i = address & 3;
        assert(address & 3 == address % 4) by (bit_vector);
        if i == 0 {
            let div = self.get_div();  // DIV
            *div = 0;
        } else if i == 1 {
            // TIMA
        } else if i == 2 {
            let tma = self.get_timer_modulo();  // TMA
            *tma = data;
        } else {
            let tac = self.get_timer_control();  // TAC
            *tac = data;
        }
    }

    fn get_memory(&self) -> (r: Option<&[u8]>)
        ensures
            r matches Some(s) && s@ == self@,
    {
        Some(self.value.as_slice())
    }

    fn get_memory_mut(&mut self) -> (r: Option<&mut [u8]>)
        ensures
            r is Some,
            r.unwrap()@ == old(self)@,
            final(self)@ == final(r.unwrap())@,
    {
        Some(&mut self.value)
    }
}

/// The interrupt flag (0xFF0F) and interrupt enable (0xFFFF) registers.
#[derive(Copy, Clone)]
pub struct Interrupts {
    pub interrupt_enabled: u8,
    pub interrupt_requested: u8,
}

impl Default for Interrupts {
    fn default() -> (r: Self)
        ensures
            r == (Interrupts { interrupt_enabled: 0, interrupt_requested: 0 }),
    {
        Interrupts { interrupt_enabled: 0, interrupt_requested: 0 }
    }
}

/// Addresses whose bits 4-7 are clear reach the requested register, the others the enabled one.
pub open spec fn addresses_requested(address: u16) -> bool {
    (address / 16) % 16 == 0
}

impl View for Interrupts {
    type V = Interrupts;

    open spec fn view(&self) -> Interrupts {
        *self
    }
}

impl Interrupts {
    fn resolve_address_to_byte(&mut self, address: u16) -> (r: &mut u8)
        ensures
            addresses_requested(address) ==> *r == old(self).interrupt_requested && *final(self)
                == (Interrupts { interrupt_requested: *final(r), ..*old(self) }),
            !addresses_requested(address) ==> *r == old(self).interrupt_enabled && *final(self)
                == (Interrupts { interrupt_enabled: *final(r), ..*old(self) }),
    {
        assert((address & 0xF0) == 0 <==> (address / 16) % 16 == 0) by (bit_vector);
        if (address & 0xF0) == 0 {
            &mut self.interrupt_requested
        } else {
            &mut self.interrupt_enabled
        }
    }
}

impl Memory for Interrupts {
    open spec fn wf(&self) -> bool {
        true
    }

    open spec fn can_read(&self, address: u16) -> bool {
        true
    }

    open spec fn read_value(&self, address: u16) -> u8 {
        if addresses_requested(address) {
            self.interrupt_requested
        } else {
            self.interrupt_enabled
        }
    }

    open spec fn after_read(&self, address: u16) -> Interrupts {
        *self
    }

    open spec fn can_write(&self, address: u16, data: u8) -> bool {
        true
    }

    open spec fn after_write(&self, address: u16, data: u8) -> Interrupts {
        if addresses_requested(address) {
            Interrupts { interrupt_requested: data, ..*self }
        } else {
            Interrupts { interrupt_enabled: data, ..*self }
        }
    }

    fn read(&mut self, address: u16) -> (r: u8) {
        *self.resolve_address_to_byte(address)
    }

    fn write(&mut self, address: u16, data: u8) {
        *self.resolve_address_to_byte(address) = data
    }
}

} // verus!

verus! {

/// The registers at 0xFF00-0xFF7F and 0xFFFF.
#[derive(Copy, Clone)]
pub struct IORegisters {
    pub joypad_data: JoypadData,
    pub serial_transfer: StubbedInterface<0xFF>,
    pub timer_div: TimerDIV,
    pub interrupts: Interrupts,
    pub audio: StubbedInterface<0xFF>,
    pub wave_pattern: StubbedInterface<0xFF>,
    pub lcd: StubbedInterface<0xFF>,
    pub disable_bootrom: DisableBootROM,
    pub vram_dma: StubbedInterface<0xFF>,
    pub bg_obj_palettes: StubbedInterface<0xFF>,
    pub wram_bank_select: StubbedInterface<0xFF>,
    pub prepare_speed_switch: StubbedInterface<0xFF>,
    pub infrared: StubbedInterface<0xFF>,
    pub object_priority: StubbedInterface<0xFF>,
    pub unused: StubbedInterface<0xFF>,
}

/// Abstract state of the registers (the stubbed ones hold none).
pub struct IORegistersState {
    pub joypad_data: JoypadData,
    pub timer_div: Seq<u8>,
    pub interrupts: Interrupts,
    pub disable_bootrom: u8,
}

impl View for IORegisters {
    type V = IORegistersState;

    open spec fn view(&self) -> IORegistersState {
        IORegistersState {
            joypad_data: self.joypad_data@,
            timer_div: self.timer_div@,
            interrupts: self.interrupts@,
            disable_bootrom: self.disable_bootrom@,
        }
    }
}

impl Default for IORegisters {
    fn default() -> (r: Self)
        ensures
            r@.joypad_data == (JoypadData {
                select_buttons: false,
                select_dpad: false,
                a: false,
                b: false,
                start: false,
                select: false,
                up: false,
                down: false,
                left: false,
                right: false,
            }),
            r@.timer_div == seq![0u8, 0, 0, 0],
            r@.interrupts == (Interrupts { interrupt_enabled: 0, interrupt_requested: 0 }),
            r@.disable_bootrom == 0,
    {
        IORegisters {
            joypad_data: JoypadData::default(),
            serial_transfer: StubbedInterface::default(),
            timer_div: TimerDIV::default(),
            interrupts: Interrupts::default(),
            audio: StubbedInterface::default(),
            wave_pattern: StubbedInterface::default(),
            lcd: StubbedInterface::default(),
            disable_bootrom: DisableBootROM::default(),
            vram_dma: StubbedInterface::default(),
            bg_obj_palettes: StubbedInterface::default(),
            wram_bank_select: StubbedInterface::default(),
            prepare_speed_switch: StubbedInterface::default(),
            infrared: StubbedInterface::default(),
            object_priority: StubbedInterface::default(),
            unused: StubbedInterface::default(),
        }
    }
}

/// The device that an address of the bus reaches.
#[derive(Copy, Clone, PartialEq, Eq, Structural, Debug)]
pub enum Device {
    Cartridge,
    BootROM,
    VideoRAM,
    WorkRAM,
    OAM,
    HighRAM,
    NoAccess,
    JoypadData,
    SerialTransfer,
    TimerDIV,
    Interrupts,
    Audio,
    WavePattern,
    LCD,
    DisableBootROM,
    VRAMDMA,
    BgObjPalettes,
    WRAMBankSelect,
    PrepareSpeedSwitch,
    Infrared,
    ObjectPriority,
    Unused,
}

/// The device behind 0xFF00 + `low`: high RAM at 0x80-0xFE, the registers of both models, the
/// unused ones, and on a CGB its own registers (unused on a DMG).
pub open spec fn io_register_device(low: u8, model: Model) -> Device {
    if 0x80 <= low <= 0xFE {
        Device::HighRAM
    } else if low == 0x00 {
        Device::JoypadData
    } else if low == 0x01 || low == 0x02 {
        Device::SerialTransfer
    } else if 0x04 <= low <= 0x07 {
        Device::TimerDIV
    } else if low == 0x0F {
        Device::Interrupts
    } else if 0x10 <= low <= 0x26 {
        Device::Audio
    } else if 0x27 <= low <= 0x2F {
        Device::Unused
    } else if 0x30 <= low <= 0x3F {
        Device::WavePattern
    } else if 0x40 <= low <= 0x4B {
        Device::LCD
    } else if low == 0x50 {
        Device::DisableBootROM
    } else if low == 0xFF {
        Device::Interrupts
    } else if low == 0x03 || (0x08 <= low <= 0x0E) || low == 0x4C || low == 0x4E || (0x57 <= low
        <= 0x67) || (0x6D <= low <= 0x6F) || (0x71 <= low <= 0x7F) {
        Device::Unused
    } else if model != Model::CGB {
        Device::Unused
    } else if low == 0x4D {
        Device::PrepareSpeedSwitch
    } else if low == 0x4F {
        Device::VideoRAM
    } else if 0x51 <= low <= 0x55 {
        Device::VRAMDMA
    } else if low == 0x56 {
        Device::Infrared
    } else if 0x68 <= low <= 0x6B {
        Device::BgObjPalettes
    } else if low == 0x6C {
        Device::ObjectPriority
    } else {
        Device::WRAMBankSelect
    }
}

/// The device that `address` reaches, for the model and the boot ROM register that decides
/// whether the boot ROM covers the cartridge (at 0x0000-0x00FF, and on a CGB also from 0x0300).
pub open spec fn device_at(address: u16, model: Model, boot_rom_register: u8) -> Device {
    if address <= 0x7FFF {
        if boot_rom_register != 0 && (address < 0x100 || (address >= 0x300 && model == Model::CGB)) {
            Device::BootROM
        } else {
            Device::Cartridge
        }
    } else if address <= 0x9FFF {
        Device::VideoRAM
    } else if address <= 0xBFFF {
        Device::Cartridge
    } else if address <= 0xFDFF {
        Device::WorkRAM
    } else if address <= 0xFE9F {
        Device::OAM
    } else if address <= 0xFEFF {
        Device::NoAccess
    } else {
        io_register_device((address % 256) as u8, model)
    }
}

/// The whole address space of the console.
#[derive(Copy, Clone)]
pub struct IO<Cart: Cartridge> {
    pub cartridge: Cart,
    pub boot_rom: BootROM,
    pub registers: IORegisters,
    pub video_ram: VideoRAM,
    pub work_ram: WorkRAM,
    pub oam: OAM,
    pub high_ram: HighRAM,
    pub io_data: IORegisters,
    pub no_access: NullMemory,
    pub model: Model,
    pub double_speed_mode: bool,
}

/// Abstract state of the address space.
pub struct IOState<C> {
    pub cartridge: C,
    pub boot_rom: Seq<u8>,
    pub registers: IORegistersState,
    pub video_ram: BankedView,
    pub work_ram: BankedView,
    pub oam: Seq<u8>,
    pub high_ram: Seq<u8>,
    pub io_data: IORegistersState,
    pub model: Model,
    pub double_speed_mode: bool,
}

impl<Cart: Cartridge> View for IO<Cart> {
    type V = IOState<Cart::V>;

    open spec fn view(&self) -> IOState<Cart::V> {
        IOState {
            cartridge: self.cartridge@,
            boot_rom: self.boot_rom@,
            registers: self.registers@,
            video_ram: self.video_ram@,
            work_ram: self.work_ram@,
            oam: self.oam@,
            high_ram: self.high_ram@,
            io_data: self.io_data@,
            model: self.model,
            double_speed_mode: self.double_speed_mode,
        }
    }
}

impl<Cart: Cartridge> IO<Cart> {
    /// The device that `address` reaches now.
    pub open spec fn device(&self, address: u16) -> Device {
        device_at(address, self.model, self.io_data.disable_bootrom@)
    }

    /// The device that `address` reaches.
    pub fn resolve_address_to_device(&self, address: u16) -> (r: Device)
        ensures
            r == self.device(address),
    {
        if address <= 0x7FFF {
            if (self.io_data.disable_bootrom.byte[0] != 0) && (address < 0x100 || (address >= 0x300
                && self.model.is_cgb())) {
                Device::BootROM
            } else {
                Device::Cartridge
            }
        } else if address <= 0x9FFF {
            Device::VideoRAM
        } else if address <= 0xBFFF {
            Device::Cartridge
        } else if address <= 0xFDFF {
            Device::WorkRAM
        } else if address <= 0xFE9F {
            Device::OAM
        } else if address <= 0xFEFF {
            Device::NoAccess
        } else {
            let low = address & 0xFF;
            assert(address & 0xFF == address % 256) by (bit_vector);
            match low as u8 {
                // HRAM
                0x80..=0xFE => Device::HighRAM,
                // DMG and CGB
                0x00 => Device::JoypadData,
                0x01 | 0x02 => Device::SerialTransfer,
                0x04..=0x07 => Device::TimerDIV,
                0x0F => Device::Interrupts,
                0x10..=0x26 => Device::Audio,
                0x27..=0x2F => Device::Unused,
                0x30..=0x3F => Device::WavePattern,
                0x40..=0x4B => Device::LCD,
                0x50 => Device::DisableBootROM,
                0xFF => Device::Interrupts,
                // Unused regardless
                0x03 => Device::Unused,
                0x08..=0x0E => Device::Unused,
                0x4C => Device::Unused,
                0x4E => Device::Unused,
                0x57..=0x67 => Device::Unused,
                0x6D..=0x6F => Device::Unused,
                0x71..=0x7F => Device::Unused,
                // all registers below are CGB exclusive
                _ if !self.model.is_cgb() => Device::Unused,
                // CGB only
                0x4D => Device::PrepareSpeedSwitch,
                0x4F => Device::VideoRAM,
                0x51..=0x55 => Device::VRAMDMA,
                0x56 => Device::Infrared,
                0x68..=0x6B => Device::BgObjPalettes,
                0x6C => Device::ObjectPriority,
                0x70 => Device::WRAMBankSelect,
            }
        }
    }
}

impl<Cart: Cartridge> Memory for IO<Cart> {
    open spec fn wf(&self) -> bool {
        &&& self.cartridge.wf()
        &&& self.boot_rom.wf()
        &&& self.video_ram.wf()
        &&& self.work_ram.wf()
        &&& self.oam.wf()
        &&& self.high_ram.wf()
        &&& self.registers.timer_div.wf()
        &&& self.io_data.timer_div.wf()
    }

    /// Only the cartridge can refuse a read.
    open spec fn can_read(&self, address: u16) -> bool {
        self.device(address) == Device::Cartridge ==> self.cartridge.can_read(address)
    }

    /// The read of the device that the address reaches; stubbed and unused registers read 0xFF.
    open spec fn read_value(&self, address: u16) -> u8 {
        match self.device(address) {
            Device::Cartridge => self.cartridge.read_value(address),
            Device::BootROM => self.boot_rom.read_value(address),
            Device::VideoRAM => self.video_ram.read_value(address),
            Device::WorkRAM => self.work_ram.read_value(address),
            Device::OAM => self.oam.read_value(address),
            Device::HighRAM => self.high_ram.read_value(address),
            Device::NoAccess => self.no_access.read_value(address),
            Device::JoypadData => self.registers.joypad_data.read_value(address),
            Device::TimerDIV => self.registers.timer_div.read_value(address),
            Device::Interrupts => self.registers.interrupts.read_value(address),
            Device::DisableBootROM => self.registers.disable_bootrom.read_value(address),
            _ => 0xFF,
        }
    }

    open spec fn after_read(&self, address: u16) -> IOState<Cart::V> {
        let v = self@;
        match self.device(address) {
            Device::Cartridge => IOState { cartridge: self.cartridge.after_read(address), ..v },
            _ => v,
        }
    }

    /// Only the cartridge can refuse a write.
    open spec fn can_write(&self, address: u16, data: u8) -> bool {
        self.device(address) == Device::Cartridge ==> self.cartridge.can_write(address, data)
    }

    /// The write of the device that the address reaches.
    open spec fn after_write(&self, address: u16, data: u8) -> IOState<Cart::V> {
        let v = self@;
        let r = v.registers;
        match self.device(address) {
            Device::Cartridge => IOState { cartridge: self.cartridge.after_write(address, data), ..v },
            Device::BootROM => IOState { boot_rom: self.boot_rom.after_write(address, data), ..v },
            Device::VideoRAM => IOState {
                video_ram: self.video_ram.after_write(address, data),
                ..v
            },
            Device::WorkRAM => IOState { work_ram: self.work_ram.after_write(address, data), ..v },
            Device::OAM => IOState { oam: self.oam.after_write(address, data), ..v },
            Device::HighRAM => IOState { high_ram: self.high_ram.after_write(address, data), ..v },
            Device::JoypadData => IOState {
                registers: IORegistersState {
                    joypad_data: self.registers.joypad_data.after_write(address, data),
                    ..r
                },
                ..v
            },
            Device::TimerDIV => IOState {
                registers: IORegistersState {
                    timer_div: self.registers.timer_div.after_write(address, data),
                    ..r
                },
                ..v
            },
            Device::Interrupts => IOState {
                registers: IORegistersState {
                    interrupts: self.registers.interrupts.after_write(address, data),
                    ..r
                },
                ..v
            },
            Device::DisableBootROM => IOState {
                registers: IORegistersState {
                    disable_bootrom: self.registers.disable_bootrom.after_write(address, data),
                    ..r
                },
                ..v
            },
            _ => v,
        }
    }

    #[verifier::rlimit(50)]
    fn read(&mut self, address: u16) -> (r: u8) {
        match self.resolve_address_to_device(address) {
            Device::Cartridge => self.cartridge.read(address),
            Device::BootROM => self.boot_rom.read(address),
            Device::VideoRAM => self.video_ram.read(address),
            Device::WorkRAM => self.work_ram.read(address),
            Device::OAM => self.oam.read(address),
            Device::HighRAM => self.high_ram.read(address),
            Device::NoAccess => self.no_access.read(address),
            Device::JoypadData => self.registers.joypad_data.read(address),
            Device::SerialTransfer => self.registers.serial_transfer.read(address),
            Device::TimerDIV => self.registers.timer_div.read(address),
            Device::Interrupts => self.registers.interrupts.read(address),
            Device::Audio => self.registers.audio.read(address),
            Device::WavePattern => self.registers.wave_pattern.read(address),
            Device::LCD => self.registers.lcd.read(address),
            Device::DisableBootROM => self.registers.disable_bootrom.read(address),
            Device::VRAMDMA => self.registers.vram_dma.read(address),
            Device::BgObjPalettes => self.registers.bg_obj_palettes.read(address),
            Device::WRAMBankSelect => self.registers.wram_bank_select.read(address),
            Device::PrepareSpeedSwitch => self.registers.prepare_speed_switch.read(address),
            Device::Infrared => self.registers.infrared.read(address),
            Device::ObjectPriority => self.registers.object_priority.read(address),
            Device::Unused => self.registers.unused.read(address),
        }
    }

    #[verifier::rlimit(50)]
    fn write(&mut self, address: u16, data: u8) {
        match self.resolve_address_to_device(address) {
            Device::Cartridge => self.cartridge.write(address, data),
            Device::BootROM => self.boot_rom.write(address, data),
            Device::VideoRAM => self.video_ram.write(address, data),
            Device::WorkRAM => self.work_ram.write(address, data),
            Device::OAM => self.oam.write(address, data),
            Device::HighRAM => self.high_ram.write(address, data),
            Device::NoAccess => self.no_access.write(address, data),
            Device::JoypadData => self.registers.joypad_data.write(address, data),
            Device::SerialTransfer => self.registers.serial_transfer.write(address, data),
            Device::TimerDIV => self.registers.timer_div.write(address, data),
            Device::Interrupts => self.registers.interrupts.write(address, data),
            Device::Audio => self.registers.audio.write(address, data),
            Device::WavePattern => self.registers.wave_pattern.write(address, data),
            Device::LCD => self.registers.lcd.write(address, data),
            Device::DisableBootROM => self.registers.disable_bootrom.write(address, data),
            Device::VRAMDMA => self.registers.vram_dma.write(address, data),
            Device::BgObjPalettes => self.registers.bg_obj_palettes.write(address, data),
            Device::WRAMBankSelect => self.registers.wram_bank_select.write(address, data),
            Device::PrepareSpeedSwitch => self.registers.prepare_speed_switch.write(address, data),
            Device::Infrared => self.registers.infrared.write(address, data),
            Device::ObjectPriority => self.registers.object_priority.write(address, data),
            Device::Unused => self.registers.unused.write(address, data),
        }
    }
}

/// A byte written through the bus to the console's own RAM (video RAM, work RAM with its echo,
/// object memory, high RAM) reads back through the bus.
pub proof fn law_io_ram_round_trip<Cart: Cartridge>(
    io: IO<Cart>,
    after: IO<Cart>,
    address: u16,
    data: u8,
)
    requires
        io.wf(),
        (0x8000 <= address <= 0x9FFF) || (0xC000 <= address <= 0xFE9F) || (0xFF80 <= address
            <= 0xFFFE),
        after@ == io.after_write(address, data),
    ensures
        after.read_value(address) == data,
{
    io.video_ram.lemma_wf();
    io.work_ram.lemma_wf();
    assert(after.device(address) == io.device(address));
    if io.device(address) == Device::WorkRAM {
        assert(0 <= wram_index(address, io.work_ram@.bank) < 32768);
    }
}

/// The address map: every address below 0x8000 reaches the cartridge or the boot ROM (the boot
/// ROM only at 0x0000-0x00FF, and on a CGB also from 0x0300), video RAM is at 0x8000-0x9FFF,
/// cartridge RAM at 0xA000-0xBFFF, work RAM (with its echo) at 0xC000-0xFDFF, object memory at
/// exactly 0xFE00-0xFE9F, and high RAM at exactly 0xFF80-0xFFFE.
pub proof fn law_io_address_map(address: u16, model: Model, boot_rom_register: u8)
    ensures
        address <= 0x7FFF ==> device_at(address, model, boot_rom_register) == Device::Cartridge
            || device_at(address, model, boot_rom_register) == Device::BootROM,
        boot_rom_register == 0 && address <= 0x7FFF ==> device_at(address, model, boot_rom_register)
            == Device::Cartridge,
        0x8000 <= address <= 0x9FFF ==> device_at(address, model, boot_rom_register)
            == Device::VideoRAM,
        0xA000 <= address <= 0xBFFF ==> device_at(address, model, boot_rom_register)
            == Device::Cartridge,
        0xC000 <= address <= 0xFDFF ==> device_at(address, model, boot_rom_register)
            == Device::WorkRAM,
        0xFE00 <= address <= 0xFE9F ==> device_at(address, model, boot_rom_register) == Device::OAM,
        0xFF80 <= address <= 0xFFFE ==> device_at(address, model, boot_rom_register)
            == Device::HighRAM,
        device_at(address, model, boot_rom_register) == Device::HighRAM ==> 0xFF80 <= address
            <= 0xFFFE,
        device_at(address, model, boot_rom_register) == Device::OAM ==> 0xFE00 <= address
            <= 0xFE9F,
        device_at(address, model, boot_rom_register) == Device::BootROM ==> address < 0x100 || (
        model == Model::CGB && 0x300 <= address <= 0x7FFF),
{
}

/// The register map at 0xFF00-0xFFFF, for either model and any boot ROM register: the joypad at
/// 0xFF00, serial at 0xFF01-0xFF02, the divider and timer at 0xFF04-0xFF07, the interrupt flags
/// at 0xFF0F and the enable register at 0xFFFF, audio at 0xFF10-0xFF26, wave pattern RAM at
/// 0xFF30-0xFF3F, the LCD at 0xFF40-0xFF4B and the boot ROM switch at 0xFF50. The registers
/// that only a CGB has (speed switch 0xFF4D, video RAM bank 0xFF4F, video RAM DMA
/// 0xFF51-0xFF55, infrared 0xFF56, palettes 0xFF68-0xFF6B, object priority 0xFF6C, work RAM
/// bank 0xFF70) are unused on a DMG.
pub proof fn law_io_register_map(address: u16, model: Model, boot_rom_register: u8)
    ensures
        address == 0xFF00 ==> device_at(address, model, boot_rom_register) == Device::JoypadData,
        0xFF01 <= address <= 0xFF02 ==> device_at(address, model, boot_rom_register)
            == Device::SerialTransfer,
        0xFF04 <= address <= 0xFF07 ==> device_at(address, model, boot_rom_register)
            == Device::TimerDIV,
        address == 0xFF0F || address == 0xFFFF ==> device_at(address, model, boot_rom_register)
            == Device::Interrupts,
        0xFF10 <= address <= 0xFF26 ==> device_at(address, model, boot_rom_register)
            == Device::Audio,
        0xFF30 <= address <= 0xFF3F ==> device_at(address, model, boot_rom_register)
            == Device::WavePattern,
        0xFF40 <= address <= 0xFF4B ==> device_at(address, model, boot_rom_register) == Device::LCD,
        address == 0xFF50 ==> device_at(address, model, boot_rom_register)
            == Device::DisableBootROM,
        model == Model::CGB && address == 0xFF4D ==> device_at(address, model, boot_rom_register)
            == Device::PrepareSpeedSwitch,
        model == Model::CGB && address == 0xFF4F ==> device_at(address, model, boot_rom_register)
            == Device::VideoRAM,
        model == Model::CGB && 0xFF51 <= address <= 0xFF55 ==> device_at(
            address,
            model,
            boot_rom_register,
        ) == Device::VRAMDMA,
        model == Model::CGB && address == 0xFF56 ==> device_at(address, model, boot_rom_register)
            == Device::Infrared,
        model == Model::CGB && 0xFF68 <= address <= 0xFF6B ==> device_at(
            address,
            model,
            boot_rom_register,
        ) == Device::BgObjPalettes,
        model == Model::CGB && address == 0xFF6C ==> device_at(address, model, boot_rom_register)
            == Device::ObjectPriority,
        model == Model::CGB && address == 0xFF70 ==> device_at(address, model, boot_rom_register)
            == Device::WRAMBankSelect,
        model != Model::CGB && (address == 0xFF4D || address == 0xFF4F || (0xFF51 <= address
            <= 0xFF56) || (0xFF68 <= address <= 0xFF6C) || address == 0xFF70) ==> device_at(
            address,
            model,
            boot_rom_register,
        ) == Device::Unused,
{
}

/// Through the bus, 0xFF04-0xFF07 read the divider, the timer counter, the modulo and the
/// control register, in that order; a write to 0xFF04 resets the divider to 0 and leaves the
/// other three alone.
pub proof fn law_io_timer_registers<Cart: Cartridge>(io: IO<Cart>, address: u16, data: u8)
    requires
        io.wf(),
        0xFF04 <= address <= 0xFF07,
    ensures
        io.read_value(address) == io.registers.timer_div@[address - 0xFF04],
        io.after_write(0xFF04, data).registers.timer_div == io.registers.timer_div@.update(0, 0),
{
}

} // verus!

verus! {

/// Bits 6 and 7 of the joypad register always read 0, and the selection written in bits 4 and 5
/// reads back inverted there (a selected group reads 0).
pub proof fn law_joypad_register(j: JoypadData, address: u16, data: u8)
    ensures
        joypad_value(j) < 64,
        ({
            let after = j.after_write(address, data);
            &&& (joypad_value(after) / 16) % 2 == 1 - (data / 16) % 2
            &&& (joypad_value(after) / 32) % 2 == 1 - (data / 32) % 2
        }),
{
}

/// A byte written to an interrupt register reads back, and the other register keeps its byte:
/// a write to 0xFF0F sets only the requested register, a write to 0xFFFF only the enabled one.
pub proof fn law_interrupts_round_trip(i: Interrupts, address: u16, other: u16, data: u8)
    ensures
        i.after_write(0xFF0F, data) == (Interrupts { interrupt_requested: data, ..i }),
        i.after_write(0xFFFF, data) == (Interrupts { interrupt_enabled: data, ..i }),
        i.after_write(address, data).read_value(address) == data,
        addresses_requested(other) != addresses_requested(address) ==> i.after_write(
            address,
            data,
        ).read_value(other) == i.read_value(other),
{
}

/// A write through the bus that does not reach the cartridge leaves the cartridge's state
/// alone, and a write that reaches it changes only the cartridge.
pub proof fn law_io_write_frames_cartridge<Cart: Cartridge>(io: IO<Cart>, address: u16, data: u8)
    ensures
        io.device(address) != Device::Cartridge ==> io.after_write(address, data).cartridge
            == io@.cartridge,
        io.device(address) == Device::Cartridge ==> io.after_write(address, data) == (IOState {
            cartridge: io.cartridge.after_write(address, data),
            ..io@
        }),
{
}

/// The input lines of the joypad register, bit by bit: with only the d-pad selected, bits 0-3
/// read 0 exactly while right, left, up and down are held; with only the buttons selected,
/// while A, B, Select and Start are held; with both, while either of the pair is held; with
/// neither, they read 1. Bit 4 reads 0 exactly while the d-pad is selected, bit 5 while the
/// buttons are.
pub proof fn law_joypad_lines(j: JoypadData, address: u16)
    ensures
        ({
            let v = j.read_value(address);
            &&& (v / 16) % 2 == 0 <==> j.select_dpad
            &&& (v / 32) % 2 == 0 <==> j.select_buttons
            &&& j.select_dpad && !j.select_buttons ==> {
                &&& (v % 2 == 0 <==> j.right)
                &&& ((v / 2) % 2 == 0 <==> j.left)
                &&& ((v / 4) % 2 == 0 <==> j.up)
                &&& ((v / 8) % 2 == 0 <==> j.down)
            }
            &&& !j.select_dpad && j.select_buttons ==> {
                &&& (v % 2 == 0 <==> j.a)
                &&& ((v / 2) % 2 == 0 <==> j.b)
                &&& ((v / 4) % 2 == 0 <==> j.select)
                &&& ((v / 8) % 2 == 0 <==> j.start)
            }
            &&& j.select_dpad && j.select_buttons ==> {
                &&& (v % 2 == 0 <==> j.right || j.a)
                &&& ((v / 2) % 2 == 0 <==> j.left || j.b)
                &&& ((v / 4) % 2 == 0 <==> j.up || j.select)
                &&& ((v / 8) % 2 == 0 <==> j.down || j.start)
            }
            &&& !j.select_dpad && !j.select_buttons ==> v % 16 == 15
        }),
{
}

} // verus!
