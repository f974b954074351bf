//! The emulator instance.

use vstd::prelude::*;
use crate::cartridge::Cartridge;
use crate::instance::io::{IO, IORegisters, IORegistersState, IOState, Interrupts, JoypadData};
use crate::memory::{
    BankedView, BootROM, HighRAM, Memory, NullMemory, OAM, VideoRAM, WorkRAM, zeroed,
};

pub mod io;

verus! {

/// The console model that is emulated.
#[derive(Copy, Clone, PartialEq, Eq, Structural, Debug)]
pub enum Model {
    DMG,
    CGB,
}

impl Model {
    /// The model is the original Game Boy.
    pub fn is_dmg(self) -> (r: bool)
        ensures
            r == (self == Model::DMG),
    {
        match self {
            Self::DMG => true,
            Self::CGB => false,
        }
    }

    /// The model is the Game Boy Color.
    pub fn is_cgb(self) -> (r: bool)
        ensures
            r == (self == Model::CGB),
    {
        match self {
            Self::DMG => false,
            Self::CGB => true,
        }
    }
}

/// Every model is exactly one of DMG and CGB.
pub proof fn law_model_is_dmg_or_cgb(model: Model)
    ensures
        (model == Model::DMG) != (model == Model::CGB),
{
}

/// A device that is not emulated: reads give `STATIC_VALUE`, writes are ignored.
#[derive(Copy, Clone)]
pub struct StubbedInterface<const STATIC_VALUE: u8>;

impl<const STATIC_VALUE: u8> Default for StubbedInterface<STATIC_VALUE> {
    fn default() -> (r: Self) {
        StubbedInterface
    }
}

impl<const STATIC_VALUE: u8> StubbedInterface<STATIC_VALUE> {
    /// Present an address, a direction and data to the device; it ignores them.
    pub fn set_data_lines(&mut self, _address: u16, _write: bool, _data_in: u8)
        ensures
            *final(self) == *old(self),
    {
    }

    /// What the device drives onto the data lines.
    pub fn read_out(&mut self) -> (r: u8)
        ensures
            r == STATIC_VALUE,
    {
        STATIC_VALUE
    }
}

impl<const STATIC_VALUE: u8> View for StubbedInterface<STATIC_VALUE> {
    type V = ();

    open spec fn view(&self) -> () {
        ()
    }
}

impl<const STATIC_VALUE: u8> Memory for StubbedInterface<STATIC_VALUE> {
    open spec fn wf(&self) -> bool {
        true
    }

    open spec fn can_read(&self, address: u16) -> bool {
        true
    }

    open spec fn read_value(&self, address: u16) -> u8 {
        STATIC_VALUE
    }

    open spec fn after_read(&self, address: u16) -> () {
        ()
    }

    open spec fn can_write(&self, address: u16, data: u8) -> bool {
        true
    }

    open spec fn after_write(&self, address: u16, data: u8) -> () {
        ()
    }

    fn read(&mut self, address: u16) -> (r: u8) {
        self.set_data_lines(address, false, 0);
        self.read_out()
    }

    fn write(&mut self, address: u16, data: u8) {
        self.set_data_lines(address, true, data);
    }
}

} // verus!

verus! {

/// Clock speed of the SoC in Hz (4 MiHz).
pub const SOC_BASE_CLOCK_SPEED: u32 = 0x400000;

/// Clock speed of the SoC in Hz in double speed mode (8 MiHz).
pub const SOC_BASE_CLOCK_SPEED_DOUBLE_SPEED: u32 = 0x800000;

/// Which internal memory `get_internal_memory_mut` gives access to.
pub enum InstantMemoryType {
    WRAM,
    VRAM,
    BootROM,
    OAM,
    HRAM,
}

/// The bytes of the internal memory `memory_type` in the address space `io`.
pub open spec fn internal_memory<C>(io: IOState<C>, memory_type: InstantMemoryType) -> Seq<u8> {
    match memory_type {
        InstantMemoryType::WRAM => io.work_ram.memory,
        InstantMemoryType::VRAM => io.video_ram.memory,
        InstantMemoryType::BootROM => io.boot_rom,
        InstantMemoryType::OAM => io.oam,
        InstantMemoryType::HRAM => io.high_ram,
    }
}

/// `io` with the bytes of the internal memory `memory_type` replaced by `bytes`.
pub open spec fn with_internal_memory<C>(
    io: IOState<C>,
    memory_type: InstantMemoryType,
    bytes: Seq<u8>,
) -> IOState<C> {
    match memory_type {
        InstantMemoryType::WRAM => IOState {
            work_ram: BankedView { memory: bytes, ..io.work_ram },
            ..io
        },
        InstantMemoryType::VRAM => IOState {
            video_ram: BankedView { memory: bytes, ..io.video_ram },
            ..io
        },
        InstantMemoryType::BootROM => IOState { boot_rom: bytes, ..io },
        InstantMemoryType::OAM => IOState { oam: bytes, ..io },
        InstantMemoryType::HRAM => IOState { high_ram: bytes, ..io },
    }
}

/// The emulated console.
#[derive(Copy, Clone)]
pub struct Emulator<Cart: Cartridge, Callbacks: EmulatorCallbacks<Cart>> {
    callbacks: Callbacks,
    soc_clock_high: bool,
    soc_clock: u32,
    io: IO<Cart>,
    clock: Clock,
    last_clock_count: u64,
}

impl<Cart: Cartridge, Callbacks: EmulatorCallbacks<Cart>> Emulator<Cart, Callbacks> {
    /// The address space of the console.
    pub closed spec fn io(&self) -> IO<Cart> {
        self.io
    }

    /// The callbacks object.
    pub closed spec fn callbacks_object(&self) -> Callbacks {
        self.callbacks
    }

    /// The level of the SoC clock signal at the last half-cycle.
    pub closed spec fn clock_high(&self) -> bool {
        self.soc_clock_high
    }

    /// The SoC clock counter.
    pub closed spec fn soc_clock_count(&self) -> u32 {
        self.soc_clock
    }

    /// The wall clock that times the SoC.
    pub closed spec fn wall_clock(&self) -> Clock {
        self.clock
    }

    /// The clock count of the last half-cycle that the timed loops ran.
    pub closed spec fn last_clock_count(&self) -> u64 {
        self.last_clock_count
    }

    /// A console running `cartridge` with `boot_rom` mapped, as `model`, starting its wall clock
    /// now; all internal memory is zeroed, the work RAM bank register reads 1.
    pub fn new(callbacks: Callbacks, cartridge: Cart, boot_rom: BootROM, model: Model) -> (r: Self)
        ensures
            r.callbacks_object() == callbacks,
            !r.clock_high(),
            r.soc_clock_count() == 0,
            r.last_clock_count() == 0,
            r.io().cartridge == cartridge,
            r.io().model == model,
            !r.io().double_speed_mode,
            r.io()@.boot_rom == boot_rom@,
            r.io()@.video_ram == (BankedView { memory: zeroed(0x4000), bank: 0 }),
            r.io()@.work_ram == (BankedView { memory: zeroed(32768), bank: 1 }),
            r.io()@.oam == zeroed(0x100),
            r.io()@.high_ram == zeroed(0x80),
            r.io()@.registers == default_registers(),
            r.io()@.io_data == default_registers(),
            cartridge.wf() ==> r.io().wf(),
    {
        proof {
            boot_rom.lemma_wf();
        }
        Self {
            callbacks,
            soc_clock_high: false,
            soc_clock: 0,
            io: IO {
                double_speed_mode: false,
                cartridge,
                boot_rom,
                video_ram: VideoRAM::default(),
                work_ram: WorkRAM::default(),
                oam: OAM::default(),
                high_ram: HighRAM::default(),
                no_access: NullMemory,
                model,
                registers: IORegisters::default(),
                io_data: IORegisters::default(),
            },
            clock: Clock::new(),
            last_clock_count: 0,
        }
    }

    /// Destroy the instance to get the callbacks object back.
    pub fn into_callbacks_object(self) -> (r: Callbacks)
        ensures
            r == self.callbacks_object(),
    {
        self.callbacks
    }

    /// Run half of one SoC clock cycle.
    ///
    /// This function is untimed and must be called at 4x2 MiHz or 8x2 MiHz depending on if running
    /// in double speed mode, alternating between high (true) and low (false).
    ///
    /// Calling this function with the same signal as last time is a no-op. The half-cycle that
    /// a change of signal would run is not implemented yet, so only that call is defined.
    pub fn tick_soc(&mut self, high: bool)
        requires
            high == old(self).clock_high(),
        ensures
            keeps_identity(*old(self), *final(self)),
            *final(self) == *old(self),
    {
        if self.soc_clock_high == high {
            // do nothing
            return ;
        }
        self.soc_clock_high = high;
    }

    /// Return the clock speed of the SoC in Hz.
    pub fn soc_clock_speed(&self) -> (r: u32)
        ensures
            r == if self.io().double_speed_mode {
                SOC_BASE_CLOCK_SPEED_DOUBLE_SPEED
            } else {
                SOC_BASE_CLOCK_SPEED
            },
    {
        if self.in_double_speed_mode() {
            SOC_BASE_CLOCK_SPEED_DOUBLE_SPEED
        } else {
            SOC_BASE_CLOCK_SPEED
        }
    }

    /// Get whether or not the console is running in double speed mode.
    pub fn in_double_speed_mode(&self) -> (r: bool)
        ensures
            r == self.io().double_speed_mode,
    {
        self.io.double_speed_mode
    }

    /// Access the internal memory of the given memory type.
    ///
    /// This is primarily available for debugging.
    pub fn get_internal_memory_mut(&mut self, memory_type: InstantMemoryType) -> (r: &mut [u8])
        ensures
            keeps_identity(*old(self), *final(self)),
            r@ == internal_memory(old(self).io()@, memory_type),
            final(self).io()@ == with_internal_memory(old(self).io()@, memory_type, final(r)@),
            final(self).io().cartridge == old(self).io().cartridge,
            final(self).callbacks_object() == old(self).callbacks_object(),
            final(self).clock_high() == old(self).clock_high(),
            final(self).soc_clock_count() == old(self).soc_clock_count(),
            final(self).last_clock_count() == old(self).last_clock_count(),
            final(self).wall_clock() == old(self).wall_clock(),
    {
        match memory_type {
            InstantMemoryType::WRAM => self.io.work_ram.memory_mut(),
            InstantMemoryType::VRAM => self.io.video_ram.memory_mut(),
            InstantMemoryType::BootROM => self.io.boot_rom.memory_mut(),
            InstantMemoryType::OAM => self.io.oam.memory_mut(),
            InstantMemoryType::HRAM => self.io.high_ram.memory_mut(),
        }
    }

    /// Access the internal memory of the cartridge.
    pub fn get_cartridge_mut(&mut self) -> (r: &mut Cart)
        ensures
            keeps_identity(*old(self), *final(self)),
            *r == old(self).io().cartridge,
            final(self).io() == (IO { cartridge: *final(r), ..old(self).io() }),
            final(self).callbacks_object() == old(self).callbacks_object(),
            final(self).clock_high() == old(self).clock_high(),
            final(self).soc_clock_count() == old(self).soc_clock_count(),
            final(self).last_clock_count() == old(self).last_clock_count(),
            final(self).wall_clock() == old(self).wall_clock(),
    {
        &mut self.io.cartridge
    }

    /// Get the current emulated model of this instance.
    pub fn get_model(&self) -> (r: Model)
        ensures
            r == self.io().model,
    {
        self.io.model
    }

    /// The level of the SoC clock signal at the last half-cycle.
    pub fn soc_clock_level(&self) -> (r: bool)
        ensures
            r == self.clock_high(),
    {
        self.soc_clock_high
    }

    /// The number of SoC clocks at `speed` Hz since the instance was created, by its wall clock.
    pub fn total_clocks(&self, speed: u32) -> (r: u64)
        ensures
            exists|nanos: int| 0 <= nanos <= max_duration_nanos() && r == clocks_in(nanos, speed),
    {
        self.clock.total_clocks(speed)
    }

    /// Record a wall-clock reading for the timed loops: when `total_clocks` is past the last
    /// count recorded, it becomes the last count and the next half-cycle is due (the result);
    /// otherwise nothing changes.
    pub fn take_clock_reading(&mut self, total_clocks: u64) -> (due: bool)
        ensures
            keeps_identity(*old(self), *final(self)),
            due == (total_clocks > old(self).last_clock_count()),
            final(self).last_clock_count() == if due {
                total_clocks
            } else {
                old(self).last_clock_count()
            },
            final(self).io() == old(self).io(),
            final(self).callbacks_object() == old(self).callbacks_object(),
            final(self).clock_high() == old(self).clock_high(),
            final(self).soc_clock_count() == old(self).soc_clock_count(),
            final(self).wall_clock() == old(self).wall_clock(),
    {
        if total_clocks <= self.last_clock_count {
            return false;
        }
        self.last_clock_count = total_clocks;
        true
    }
}

/// `b` has the callbacks object and the emulated model of `a`.
pub open spec fn keeps_identity<Cart: Cartridge, Callbacks: EmulatorCallbacks<Cart>>(
    a: Emulator<Cart, Callbacks>,
    b: Emulator<Cart, Callbacks>,
) -> bool {
    b.callbacks_object() == a.callbacks_object() && b.io().model == a.io().model
}

/// Every operation on an emulator keeps its callbacks object and its model (their `ensures`
/// say `keeps_identity`), so after any sequence of them from `new(callbacks, .., model)`,
/// `into_callbacks_object` hands back `callbacks` and `get_model` gives `model`.
pub proof fn law_emulator_keeps_identity<Cart: Cartridge, Callbacks: EmulatorCallbacks<Cart>>(
    states: Seq<Emulator<Cart, Callbacks>>,
)
    requires
        states.len() > 0,
        forall|i: int|
            0 <= i < states.len() - 1 ==> #[trigger] keeps_identity(states[i], states[i + 1]),
    ensures
        keeps_identity(states[0], states.last()),
    decreases states.len(),
{
    if states.len() > 1 {
        let prefix = states.drop_last();
        assert forall|i: int| 0 <= i < prefix.len() - 1 implies #[trigger] keeps_identity(
            prefix[i],
            prefix[i + 1],
        ) by {
            assert(prefix[i] == states[i] && prefix[i + 1] == states[i + 1]);
            assert(keeps_identity(states[i], states[i + 1]));
        }
        law_emulator_keeps_identity(prefix);
        let k = states.len() - 2;
        assert(keeps_identity(states[k], states[k + 1]));
        assert(prefix.last() == states[k]);
    }
}

/// The registers as they start.
pub open spec fn default_registers() -> IORegistersState {
    IORegistersState {
        joypad_data: JoypadData {
            select_buttons: false,
            select_dpad: false,
            a: false,
            b: false,
            start: false,
            select: false,
            up: false,
            down: false,
            left: false,
            right: false,
        },
        timer_div: seq![0u8, 0, 0, 0],
        interrupts: Interrupts { interrupt_enabled: 0, interrupt_requested: 0 },
        disable_bootrom: 0,
    }
}

/// A pixel colour.
#[derive(Copy, Clone, Default, PartialEq, Debug)]
pub struct Color {
    pub red: u8,
    pub green: u8,
    pub blue: u8,
}

/// Callbacks that get called when certain events in the emulator occur.
///
/// By default, each callback is a no-op.
pub trait EmulatorCallbacks<Cart: Cartridge>: Sized {
    /// Called upon generating an audio sample, giving you the combined samples for each audio channel
    /// as well as each individual audio channel.
    ///
    /// This will be called at 2 MiHz.
    fn on_sample(&mut self, emulator: &Emulator<Cart, Self>, sample: &APUSamples) {
    }

    /// Called upon entering vblank.
    fn on_vblank(&mut self, emulator: &Emulator<Cart, Self>) {
    }

    /// Called upon generating a pixel.
    fn on_dot(&mut self, emulator: &Emulator<Cart, Self>, dot: Color) {
    }
}

/// No-op implementation if no callbacks are desired.
impl<Cart: Cartridge> EmulatorCallbacks<Cart> for () {

}

/// Defines an audio sample on left/right channels.
#[derive(Copy, Clone, PartialEq, Default, Debug)]
pub struct AudioSample {
    pub left: u16,
    pub right: u16,
}

/// Defines an audio sample for all channels.
#[derive(Copy, Clone, PartialEq, Default, Debug)]
pub struct APUSamples {
    pub mixed: AudioSample,
    pub wave1: AudioSample,
    pub wave2: AudioSample,
    pub sample: AudioSample,
    pub noise: AudioSample,
}

#[verifier::external_type_specification]
#[verifier::external_body]
pub struct ExInstant(std::time::Instant);

/// Calls std's `Instant::now`, which returns the current instant; nothing is claimed of it.
#[verifier::external_body]
fn instant_now() -> std::time::Instant {
    std::time::Instant::now()
}

/// Calls std's `Instant::elapsed`, the time from `start` to now; nothing is claimed of it.
#[verifier::external_body]
fn elapsed_since(start: &std::time::Instant) -> core::time::Duration {
    start.elapsed()
}

/// The largest number of nanoseconds in a `Duration` (`u64::MAX` seconds and 999,999,999
/// nanoseconds).
pub open spec fn max_duration_nanos() -> int {
    18446744073709551615int * 1000000000 + 999999999
}

/// Calls std's `Duration::as_nanos`, the total number of nanoseconds in the duration, which
/// cannot exceed that of `Duration::MAX`; the value itself depends on the wall clock and is not
/// claimed.
#[verifier::external_body]
fn duration_nanos(duration: &core::time::Duration) -> (r: u128)
    ensures
        r <= max_duration_nanos(),
{
    duration.as_nanos()
}

/// The number of clocks at `speed` Hz in `nanos` nanoseconds, rounded down and truncated to 64
/// bits.
pub open spec fn clocks_in(nanos: int, speed: u32) -> u64 {
    ((nanos * speed) / 1000000000) as u64
}

/// The clock count never goes back as time goes on, nor as the speed rises, as long as the
/// count fits in 64 bits; at speed 0 it stays 0.
pub proof fn law_clocks_monotone(nanos: int, later: int, speed: u32, faster: u32)
    requires
        0 <= nanos <= later,
        speed <= faster,
        (later * faster) / 1000000000 <= u64::MAX,
    ensures
        clocks_in(nanos, speed) <= clocks_in(later, speed),
        clocks_in(nanos, speed) <= clocks_in(nanos, faster),
        clocks_in(nanos, 0) == 0,
{
    assert(0 <= nanos * speed <= later * speed <= later * faster) by (nonlinear_arith)
        requires
            0 <= nanos <= later,
            0 <= speed <= faster,
    ;
    assert(nanos * speed <= nanos * faster) by (nonlinear_arith)
        requires
            0 <= nanos,
            0 <= speed <= faster,
    ;
    assert((nanos * speed) / 1000000000 <= (later * speed) / 1000000000 <= (later * faster)
        / 1000000000) by (nonlinear_arith)
        requires
            0 <= nanos * speed <= later * speed <= later * faster,
    ;
    assert((nanos * speed) / 1000000000 <= (nanos * faster) / 1000000000) by (nonlinear_arith)
        requires
            0 <= nanos * speed <= nanos * faster,
    ;
    assert(nanos * 0 == 0);
    let a = (nanos * speed) / 1000000000;
    let b = (later * speed) / 1000000000;
    let c = (nanos * faster) / 1000000000;
    assert(0 <= a <= b <= u64::MAX);
    assert(0 <= c <= (later * faster) / 1000000000) by (nonlinear_arith)
        requires
            0 <= nanos <= later,
            0 <= faster,
            c == (nanos * faster) / 1000000000,
    ;
    assert(a as u64 == a);
    assert(b as u64 == b);
    assert(c as u64 == c);
}

/// 4/8 MiHz clock
#[derive(Copy, Clone)]
pub struct Clock {
    start_time: std::time::Instant,
}

impl Clock {
    /// A clock started now.
    pub fn new() -> Self {
        Self { start_time: instant_now() }
    }

    /// The number of clocks at `speed` Hz since the clock started: the elapsed nanoseconds
    /// (from the wall clock) times the speed, over 10^9.
    pub fn total_clocks(&self, speed: u32) -> (r: u64)
        ensures
            exists|nanos: int| 0 <= nanos <= max_duration_nanos() && r == clocks_in(nanos, speed),
    {
        let nanos = duration_nanos(&elapsed_since(&self.start_time));
        let r = clocks_from_nanos(nanos, speed);
        assert(r == clocks_in(nanos as int, speed));
        r
    }
}

/// The number of clocks at `speed` Hz in `nanos` nanoseconds, rounded down and truncated to 64
/// bits.
pub fn clocks_from_nanos(nanos: u128, speed: u32) -> (r: u64)
    requires
        nanos <= max_duration_nanos(),
    ensures
        r == clocks_in(nanos as int, speed),
{
    let speed = speed as u128;
    assert(nanos * speed <= max_duration_nanos() * 0xFFFFFFFF) by (nonlinear_arith)
        requires
            nanos <= max_duration_nanos(),
            speed <= 0xFFFFFFFF,
    ;
    assert(max_duration_nanos() * 0xFFFFFFFF <= u128::MAX);
    (nanos * speed / 1000000000) as u64
}

} // verus!
