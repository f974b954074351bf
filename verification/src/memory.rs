//! Memory controller functionality.

use vstd::prelude::*;

verus! {

/// A sequence of `n` zero bytes.
pub open spec fn zeroed(n: nat) -> Seq<u8> {
    Seq::new(n, |i: int| 0u8)
}

/// Trait for memory controllers.
///
/// Each device has an abstract state (its view); the spec functions below say what a read
/// returns and what state a read or a write leaves behind, and on which addresses the device
/// is defined at all.
pub trait Memory: Sized + View {
    /// Well-formedness of the device's state; every operation keeps it.
    spec fn wf(&self) -> bool;

    /// `read` is defined at `address` in this state.
    spec fn can_read(&self, address: u16) -> bool;

    /// The byte that a read at `address` returns.
    spec fn read_value(&self, address: u16) -> u8;

    /// The state that a read at `address` leaves behind.
    spec fn after_read(&self, address: u16) -> Self::V;

    /// `write` is defined at `address` with `data` in this state.
    spec fn can_write(&self, address: u16, data: u8) -> bool;

    /// The state that a write of `data` at `address` leaves behind.
    spec fn after_write(&self, address: u16, data: u8) -> Self::V;

    /// Read a byte at the given address.
    ///
    /// In some cases, the act of reading something can impact the state of the object (also known
    /// as side effects), so this is a mutable function even if it involves reading.
    ///
    /// To read data with no side effects, use [`get_memory`](Memory::get_memory).
    ///
    /// Note that this function is infallible and must return something, even if it is garbage.
    fn read(&mut self, address: u16) -> (r: u8)
        requires
            old(self).wf(),
            old(self).can_read(address),
        ensures
            final(self).wf(),
            r == old(self).read_value(address),
            final(self)@ == old(self).after_read(address),
    ;

    /// Write a byte at the given address.
    ///
    /// Note that, for some memory objects, the act of writing can have side effects.
    ///
    /// To write data with no side effects, use [`get_memory_mut`](Memory::get_memory_mut).
    fn write(&mut self, address: u16, data: u8)
        requires
            old(self).wf(),
            old(self).can_write(address, data),
        ensures
            final(self).wf(),
            final(self)@ == old(self).after_write(address, data),
    ;

    /// Get the current bank.
    ///
    /// Returns `None` if not implemented.
    fn get_bank(&self) -> (r: Option<usize>)
        default_ensures
            r is None,
    {
        None
    }

    /// Get access to the entire memory object.
    ///
    /// Returns `None` if not implemented.
    fn get_memory(&self) -> (r: Option<&[u8]>)
        default_ensures
            r is None,
    {
        None
    }

    /// Get mutable access to the entire memory object.
    ///
    /// Returns `None` if not implemented.
    fn get_memory_mut(&mut self) -> (r: Option<&mut [u8]>)
        default_ensures
            r is None,
    {
        None
    }
}

/// Abstract state of a banked memory: its bytes and its bank register.
pub struct BankedView {
    pub memory: Seq<u8>,
    pub bank: usize,
}

/// Index into video RAM of `address` with bank register `bank`: the low 13 bits of the address
/// within the bank selected by the lowest bit of the register.
pub open spec fn vram_index(address: u16, bank: usize) -> int {
    (address % 0x2000) as int + 0x2000 * (bank % 2) as int
}

/// Mapped to 0x8000-0x9FFF.
#[derive(Copy, Clone)]
pub struct VideoRAM {
    pub(crate) memory: [u8; 0x4000],
    pub(crate) bank: ByteSize<1>,
}

impl View for VideoRAM {
    type V = BankedView;

    closed spec fn view(&self) -> BankedView {
        BankedView { memory: self.memory@, bank: self.bank.size }
    }
}

impl VideoRAM {

    /// Every value is well formed: the array has its fixed size.
    pub proof fn lemma_wf(&self)
        ensures
            self.wf(),
    {
    }

    /// The backing bytes, to change directly.
    pub(crate) fn memory_mut(&mut self) -> (r: &mut [u8])
        ensures
            r@ == old(self)@.memory,
            final(self)@ == (BankedView { memory: final(r)@, bank: old(self)@.bank }),
    {
        &mut self.memory
    }
    fn resolve_address(&self, addr: u16) -> (r: usize)
        ensures
            r == vram_index(addr, self@.bank),
            r < 0x4000,
    {
        let offset = (addr & 0x1FFF) as usize;
        let bank_offset = (self.bank.size & 1) << 13;
        let b = self.bank.size;
        assert((((b & 1) << 13) | (addr & 0x1FFF) as usize) == (addr % 0x2000) as usize + 0x2000
            * (b % 2) && (addr % 0x2000) < 0x2000 && b % 2 < 2) by (bit_vector);
        bank_offset | offset
    }
}

impl Memory for VideoRAM {
    open spec fn wf(&self) -> bool {
        self@.memory.len() == 0x4000
    }

    open spec fn can_read(&self, address: u16) -> bool {
        true
    }

    open spec fn read_value(&self, address: u16) -> u8 {
        self@.memory[vram_index(address, self@.bank)]
    }

    open spec fn after_read(&self, address: u16) -> BankedView {
        self@
    }

    open spec fn can_write(&self, address: u16, data: u8) -> bool {
        true
    }

    open spec fn after_write(&self, address: u16, data: u8) -> BankedView {
        BankedView {
            memory: self@.memory.update(vram_index(address, self@.bank), data),
            bank: self@.bank,
        }
    }

    fn read(&mut self, address: u16) -> (r: u8) {
        self.memory[self.resolve_address(address)]
    }

    fn write(&mut self, address: u16, data: u8) {
        let i = self.resolve_address(address);
        self.memory[i] = data;
    }

    fn get_bank(&self) -> (r: Option<usize>)
        ensures
            r == Some(self@.bank),
    {
        Some(self.bank.size)
    }

    fn get_memory(&self) -> (r: Option<&[u8]>)
        ensures
            r matches Some(s) && s@ == self@.memory,
    {
        Some(self.memory.as_slice())
    }

    fn get_memory_mut(&mut self) -> (r: Option<&mut [u8]>)
        ensures
            r is Some,
            r.unwrap()@ == old(self)@.memory,
            final(self)@ == (BankedView { memory: final(r.unwrap())@, bank: old(self)@.bank }),
    {
        Some(&mut self.memory)
    }
}

impl Default for VideoRAM {
    fn default() -> (r: Self)
        ensures
            r@ == (BankedView { memory: zeroed(0x4000), bank: 0 }),
    {
        let r = Self { memory: [0u8; 0x4000], bank: ByteSize { size: 0 } };
        assert(r.memory@ =~= zeroed(0x4000));
        r
    }
}

/// Index into work RAM of `address` with bank register `bank`: addresses whose bit 12 is clear
/// reach bank 0, the others the bank selected by the lowest three bits of the register.
pub open spec fn wram_index(address: u16, bank: usize) -> int {
    let offset = (address % 0x1000) as int;
    if (address / 0x1000) % 2 == 0 {
        offset
    } else {
        0x1000 * (bank % 8) as int + offset
    }
}

/// Mapped to 0xC000-0xFDFF.
#[derive(Copy, Clone)]
pub struct WorkRAM {
    pub(crate) memory: [u8; 32768],
    pub(crate) bank: ByteSize<7>,
}

impl View for WorkRAM {
    type V = BankedView;

    closed spec fn view(&self) -> BankedView {
        BankedView { memory: self.memory@, bank: self.bank.size }
    }
}

impl WorkRAM {

    /// Every value is well formed: the array has its fixed size.
    pub proof fn lemma_wf(&self)
        ensures
            self.wf(),
    {
    }

    /// The backing bytes, to change directly.
    pub(crate) fn memory_mut(&mut self) -> (r: &mut [u8])
        ensures
            r@ == old(self)@.memory,
            final(self)@ == (BankedView { memory: final(r)@, bank: old(self)@.bank }),
    {
        &mut self.memory
    }
    fn resolve_address(&self, addr: u16) -> (r: usize)
        ensures
            r == wram_index(addr, self@.bank),
            r < 32768,
    {
        // Only care about the lower 12 bits.
        let offset = (addr & 0xFFF) as usize;
        let b = self.bank.size;
        assert((addr & 0xFFF) == addr % 0x1000) by (bit_vector);
        // If the upper bit is not set, we are accessing 0xC000-0xCFFF or 0xE000-0xEFFF.
        let bank_offset = if (addr & 0x1000) == 0 {
            assert((addr & 0x1000) == 0 ==> (addr / 0x1000) % 2 == 0) by (bit_vector);
            0
        }
        // Otherwise, we are accessing 0xD000-0xDFFF or 0xF000-0xFDFF.
        else {
            assert((addr & 0x1000) != 0 ==> (addr / 0x1000) % 2 == 1) by (bit_vector);
            (self.bank.size & 7) << 12
        };
        assert(((0usize | (addr & 0xFFF) as usize) == (addr & 0xFFF) as usize)) by (bit_vector);
        assert(((b & 7) << 12 | (addr & 0xFFF) as usize) == 0x1000 * (b % 8) + (addr % 0x1000) as usize
            && b % 8 < 8 && addr % 0x1000 < 0x1000) by (bit_vector);
        bank_offset | offset
    }
}

impl Memory for WorkRAM {
    open spec fn wf(&self) -> bool {
        self@.memory.len() == 32768
    }

    open spec fn can_read(&self, address: u16) -> bool {
        true
    }

    open spec fn read_value(&self, address: u16) -> u8 {
        self@.memory[wram_index(address, self@.bank)]
    }

    open spec fn after_read(&self, address: u16) -> BankedView {
        self@
    }

    open spec fn can_write(&self, address: u16, data: u8) -> bool {
        true
    }

    open spec fn after_write(&self, address: u16, data: u8) -> BankedView {
        BankedView {
            memory: self@.memory.update(wram_index(address, self@.bank), data),
            bank: self@.bank,
        }
    }

    fn read(&mut self, address: u16) -> (r: u8) {
        self.memory[self.resolve_address(address)]
    }

    fn write(&mut self, address: u16, data: u8) {
        let i = self.resolve_address(address);
        self.memory[i] = data;
    }

    fn get_bank(&self) -> (r: Option<usize>)
        ensures
            r == Some(self@.bank),
    {
        Some(self.bank.size)
    }

    fn get_memory(&self) -> (r: Option<&[u8]>)
        ensures
            r matches Some(s) && s@ == self@.memory,
    {
        Some(self.memory.as_slice())
    }

    fn get_memory_mut(&mut self) -> (r: Option<&mut [u8]>)
        ensures
            r is Some,
            r.unwrap()@ == old(self)@.memory,
            final(self)@ == (BankedView { memory: final(r.unwrap())@, bank: old(self)@.bank }),
    {
        Some(&mut self.memory)
    }
}

impl Default for WorkRAM {
    fn default() -> (r: Self)
        ensures
            r@ == (BankedView { memory: zeroed(32768), bank: 1 }),
    {
        let r = Self { memory: [0u8; 32768], bank: ByteSize { size: 1 } };
        assert(r.memory@ =~= zeroed(32768));
        r
    }
}

/// Mapped to 0xFE00-0xFE9F.
#[derive(Copy, Clone)]
pub struct OAM {
    pub(crate) memory: [u8; 0x100],
}

impl View for OAM {
    type V = Seq<u8>;

    closed spec fn view(&self) -> Seq<u8> {
        self.memory@
    }
}

impl OAM {

    /// Every value is well formed: the array has its fixed size.
    pub proof fn lemma_wf(&self)
        ensures
            self.wf(),
    {
    }

    /// The backing bytes, to change directly.
    pub(crate) fn memory_mut(&mut self) -> (r: &mut [u8])
        ensures
            r@ == old(self)@,
            final(self)@ == final(r)@,
    {
        &mut self.memory
    }
    fn resolve_address(&self, address: u16) -> (r: usize)
        ensures
            r == address % 0x100,
    {
        assert((address & 0xFF) == (address % 0x100) as int) by (bit_vector);
        (address & 0xFF) as usize
    }
}

impl Memory for OAM {
    open spec fn wf(&self) -> bool {
        self@.len() == 0x100
    }

    open spec fn can_read(&self, address: u16) -> bool {
        true
    }

    open spec fn read_value(&self, address: u16) -> u8 {
        self@[(address % 0x100) as int]
    }

    open spec fn after_read(&self, address: u16) -> Seq<u8> {
        self@
    }

    open spec fn can_write(&self, address: u16, data: u8) -> bool {
        true
    }

    open spec fn after_write(&self, address: u16, data: u8) -> Seq<u8> {
        self@.update((address % 0x100) as int, data)
    }

    fn read(&mut self, address: u16) -> (r: u8) {
        self.memory[self.resolve_address(address)]
    }

    fn write(&mut self, address: u16, data: u8) {
        let i = self.resolve_address(address);
        self.memory[i] = data;
    }

    fn get_memory(&self) -> (r: Option<&[u8]>)
        ensures
            r matches Some(s) && s@ == self@.subrange(0, 0xA0),
    {
        Some(vstd::slice::slice_subrange(self.memory.as_slice(), 0, 0xA0))
    }

    fn get_memory_mut(&mut self) -> (r: Option<&mut [u8]>)
        ensures
            r is Some,
            r.unwrap()@ == old(self)@.subrange(0, 0xA0),
            final(self)@ == final(r.unwrap())@ + old(self)@.subrange(0xA0, 0x100),
    {
        let whole: &mut [u8] = &mut self.memory;
        let (used, _unused) = whole.split_at_mut(0xA0);
        Some(used)
    }
}

impl Default for OAM {
    fn default() -> (r: Self)
        ensures
            r@ == zeroed(0x100),
    {
        let r = Self { memory: [0u8; 0x100] };
        assert(r.memory@ =~= zeroed(0x100));
        r
    }
}

/// Mapped to 0xFF80-0xFFFE
#[derive(Copy, Clone)]
pub struct HighRAM {
    pub(crate) memory: [u8; 0x80],
}

impl View for HighRAM {
    type V = Seq<u8>;

    closed spec fn view(&self) -> Seq<u8> {
        self.memory@
    }
}

impl HighRAM {

    /// Every value is well formed: the array has its fixed size.
    pub proof fn lemma_wf(&self)
        ensures
            self.wf(),
    {
    }

    /// The backing bytes, to change directly.
    pub(crate) fn memory_mut(&mut self) -> (r: &mut [u8])
        ensures
            r@ == old(self)@,
            final(self)@ == final(r)@,
    {
        &mut self.memory
    }
    fn resolve_address(&self, address: u16) -> (r: usize)
        ensures
            r == address % 0x80,
    {
        assert((address & 0x7F) == (address % 0x80) as int) by (bit_vector);
        (address & 0x7F) as usize
    }
}

impl Memory for HighRAM {
    open spec fn wf(&self) -> bool {
        self@.len() == 0x80
    }

    open spec fn can_read(&self, address: u16) -> bool {
        true
    }

    open spec fn read_value(&self, address: u16) -> u8 {
        self@[(address % 0x80) as int]
    }

    open spec fn after_read(&self, address: u16) -> Seq<u8> {
        self@
    }

    open spec fn can_write(&self, address: u16, data: u8) -> bool {
        true
    }

    open spec fn after_write(&self, address: u16, data: u8) -> Seq<u8> {
        self@.update((address % 0x80) as int, data)
    }

    fn read(&mut self, address: u16) -> (r: u8) {
        self.memory[self.resolve_address(address)]
    }

    fn write(&mut self, address: u16, data: u8) {
        let i = self.resolve_address(address);
        self.memory[i] = data;
    }

    fn get_memory(&self) -> (r: Option<&[u8]>)
        ensures
            r matches Some(s) && s@ == self@.subrange(0, 0x7F),
    {
        Some(vstd::slice::slice_subrange(self.memory.as_slice(), 0, 0x7F))
    }

    fn get_memory_mut(&mut self) -> (r: Option<&mut [u8]>)
        ensures
            r is Some,
            r.unwrap()@ == old(self)@.subrange(0, 0x7F),
            final(self)@ == final(r.unwrap())@ + old(self)@.subrange(0x7F, 0x80),
    {
        let whole: &mut [u8] = &mut self.memory;
        let (used, _unused) = whole.split_at_mut(0x7F);
        Some(used)
    }
}

impl Default for HighRAM {
    fn default() -> (r: Self)
        ensures
            r@ == zeroed(0x80),
    {
        let r = Self { memory: [0u8; 0x80] };
        assert(r.memory@ =~= zeroed(0x80));
        r
    }
}

/// Mapped to 0xFEA0-0xFEFF.
#[derive(Copy, Clone, Default)]
pub struct NullMemory;

impl View for NullMemory {
    type V = ();

    open spec fn view(&self) -> () {
        ()
    }
}

impl Memory for NullMemory {
    open spec fn wf(&self) -> bool {
        true
    }

    open spec fn can_read(&self, address: u16) -> bool {
        true
    }

    open spec fn read_value(&self, address: u16) -> u8 {
        0x00
    }

    open spec fn after_read(&self, address: u16) -> () {
        ()
    }

    open spec fn can_write(&self, address: u16, data: u8) -> bool {
        true
    }

    open spec fn after_write(&self, address: u16, data: u8) -> () {
        ()
    }

    fn read(&mut self, _address: u16) -> (r: u8) {
        0x00
    }

    fn write(&mut self, _address: u16, _data: u8) {
    }
}

const BOOT_ROM_LOW_SIZE: usize = 256;

const BOOT_ROM_HIGH_SIZE: usize = 1792;

const BOOT_ROM_PADDING: usize = 512;

pub type DMGBootROM = [u8; 256];

pub type CGBBootROMPadded = [u8; 2560];

pub type CGBBootROM = [u8; 2048];

/// The byte that a boot ROM holding `data` (its 256 low bytes, then its 1792 high bytes)
/// presents at `address`: the low part at 0x000-0x0FF, the high part at 0x200-0x8FF, and 0xFF
/// elsewhere.
pub open spec fn boot_rom_byte(data: Seq<u8>, address: u16) -> u8 {
    if address < 0x100 {
        data[address as int]
    } else if 0x200 <= address <= 0x8FF {
        data[0x100 + address - 0x200]
    } else {
        0xFF
    }
}

/// The boot ROM, mapped over the start of the cartridge while it is enabled.
#[derive(Copy, Clone)]
pub struct BootROM {
    pub(crate) data: [u8; 2048],
}

impl View for BootROM {
    type V = Seq<u8>;

    closed spec fn view(&self) -> Seq<u8> {
        self.data@
    }
}

impl BootROM {

    /// Every value is well formed: the array has its fixed size.
    pub proof fn lemma_wf(&self)
        ensures
            self.wf(),
    {
    }

    /// The backing bytes, to change directly.
    pub(crate) fn memory_mut(&mut self) -> (r: &mut [u8])
        ensures
            r@ == old(self)@,
            final(self)@ == final(r)@,
    {
        &mut self.data
    }
    /// A DMG boot ROM: its 256 bytes are the low part, the high part is zero.
    pub fn new_dmg(data: DMGBootROM) -> (r: Self)
        ensures
            r@ == data@ + zeroed(1792),
    {
        Self::from_low_high(data, [0u8; 1792])
    }

    /// A CGB boot ROM given with the 512 bytes of padding (where the cartridge header shows
    /// through) between its low and its high part.
    pub fn new_cgb_padded(data: CGBBootROMPadded) -> (r: Self)
        ensures
            r@ == data@.subrange(0, 256) + data@.subrange(768, 2560),
    {
        let mut low = [0u8; 256];
        let mut i: usize = 0;
        while i < BOOT_ROM_LOW_SIZE
            invariant
                i <= 256,
                low@.len() == 256,
                forall|j: int| 0 <= j < i ==> low@[j] == data@[j],
            decreases 256 - i,
        {
            low[i] = data[i];
            i = i + 1;
        }
        let mut high = [0u8; 1792];
        let mut k: usize = 0;
        while k < BOOT_ROM_HIGH_SIZE
            invariant
                k <= 1792,
                high@.len() == 1792,
                forall|j: int| 0 <= j < k ==> high@[j] == data@[768 + j],
            decreases 1792 - k,
        {
            high[k] = data[BOOT_ROM_LOW_SIZE + BOOT_ROM_PADDING + k];
            k = k + 1;
        }
        assert(low@ =~= data@.subrange(0, 256));
        assert(high@ =~= data@.subrange(768, 2560));
        Self::from_low_high(low, high)
    }

    /// A CGB boot ROM given without padding.
    pub fn new_cgb(data: CGBBootROM) -> (r: Self)
        ensures
            r@ == data@,
    {
        Self { data }
    }

    fn from_low_high(low: [u8; 256], high: [u8; 1792]) -> (r: Self)
        ensures
            r@ == low@ + high@,
    {
        let mut data = [0u8; 2048];
        let mut i: usize = 0;
        while i < BOOT_ROM_LOW_SIZE
            invariant
                i <= 256,
                data@.len() == 2048,
                forall|j: int| 0 <= j < i ==> data@[j] == low@[j],
            decreases 256 - i,
        {
            data[i] = low[i];
            i = i + 1;
        }
        let mut k: usize = 0;
        while k < BOOT_ROM_HIGH_SIZE
            invariant
                k <= 1792,
                data@.len() == 2048,
                forall|j: int| 0 <= j < 256 ==> data@[j] == low@[j],
                forall|j: int| 0 <= j < k ==> data@[256 + j] == high@[j],
            decreases 1792 - k,
        {
            data[BOOT_ROM_LOW_SIZE + k] = high[k];
            k = k + 1;
        }
        assert(data@ =~= low@ + high@);
        Self { data }
    }
}

impl Default for BootROM {
    fn default() -> (r: Self)
        ensures
            r@ == zeroed(2048),
    {
        let r = Self { data: [0u8; 2048] };
        assert(r.data@ =~= zeroed(2048));
        r
    }
}

impl Memory for BootROM {
    open spec fn wf(&self) -> bool {
        self@.len() == 2048
    }

    open spec fn can_read(&self, address: u16) -> bool {
        true
    }

    open spec fn read_value(&self, address: u16) -> u8 {
        boot_rom_byte(self@, address)
    }

    open spec fn after_read(&self, address: u16) -> Seq<u8> {
        self@
    }

    open spec fn can_write(&self, address: u16, data: u8) -> bool {
        true
    }

    open spec fn after_write(&self, address: u16, data: u8) -> Seq<u8> {
        self@
    }

    fn read(&mut self, address: u16) -> (r: u8) {
        let address = address as usize;
        let (low, high) = self.data.as_slice().split_at(BOOT_ROM_LOW_SIZE);
        if address < BOOT_ROM_LOW_SIZE {
            low[address]
        } else if address >= 0x200 && address <= 0x8FF {
            high[address - 0x200]
        } else {
            0xFF
        }
    }

    fn write(&mut self, _address: u16, _data: u8) {
    }

    fn get_memory(&self) -> (r: Option<&[u8]>)
        ensures
            r matches Some(s) && s@ == self@,
    {
        Some(self.data.as_slice())
    }

    fn get_memory_mut(&mut self) -> (r: Option<&mut [u8]>)
        ensures
            r is Some,
            r.unwrap()@ == old(self)@,
            final(self)@ == final(r.unwrap())@,
    {
        Some(&mut self.data)
    }
}

/// A one-byte register holding a value masked by `MASK`, such as a bank select.
#[derive(Copy, Clone)]
pub(crate) struct ByteSize<const MASK: usize> {
    pub size: usize,
}

impl<const MASK: usize> View for ByteSize<MASK> {
    type V = usize;

    closed spec fn view(&self) -> usize {
        self.size
    }
}

impl<const MASK: usize> Memory for ByteSize<MASK> {
    open spec fn wf(&self) -> bool {
        true
    }

    open spec fn can_read(&self, address: u16) -> bool {
        true
    }

    open spec fn read_value(&self, address: u16) -> u8 {
        (self@ % 256) as u8
    }

    open spec fn after_read(&self, address: u16) -> usize {
        self@
    }

    open spec fn can_write(&self, address: u16, data: u8) -> bool {
        true
    }

    open spec fn after_write(&self, address: u16, data: u8) -> usize {
        (data as usize) & MASK
    }

    fn read(&mut self, _address: u16) -> (r: u8) {
        let s = self.size;
        assert((s & 0xFF) < 256 && (s & 0xFF) == s % 256) by (bit_vector);
        (s & 0xFF) as u8
    }

    fn write(&mut self, _address: u16, data: u8) {
        self.size = (data as usize) & MASK
    }
}

} // verus!

verus! {

/// A byte written to video RAM reads back at the same address, and addresses that reach
/// another index keep their byte.
pub proof fn law_vram_round_trip(m: VideoRAM, after: VideoRAM, address: u16, other: u16, data: u8)
    requires
        m.wf(),
        after@ == m.after_write(address, data),
    ensures
        after.read_value(address) == data,
        vram_index(other, m@.bank) != vram_index(address, m@.bank) ==> after.read_value(other)
            == m.read_value(other),
{
}

/// A byte written to work RAM reads back at the same address, and addresses that reach another
/// index keep their byte.
pub proof fn law_wram_round_trip(m: WorkRAM, after: WorkRAM, address: u16, other: u16, data: u8)
    requires
        m.wf(),
        after@ == m.after_write(address, data),
    ensures
        after.read_value(address) == data,
        wram_index(other, m@.bank) != wram_index(address, m@.bank) ==> after.read_value(other)
            == m.read_value(other),
{
    assert(0 <= wram_index(address, m@.bank) < 32768);
}

/// The echo of work RAM at 0xE000-0xFDFF shows the bytes of 0xC000-0xDDFF: both addresses
/// reach the same index, below the size of work RAM.
pub proof fn law_wram_echo(address: u16, bank: usize)
    requires
        0xC000 <= address <= 0xDDFF,
    ensures
        wram_index((address + 0x2000) as u16, bank) == wram_index(address, bank),
        0 <= wram_index(address, bank) < 32768,
{
}

/// A byte written to object memory reads back at the same address, and other addresses of the
/// 0x100-byte window keep their byte.
pub proof fn law_oam_round_trip(m: OAM, after: OAM, address: u16, other: u16, data: u8)
    requires
        m.wf(),
        after@ == m.after_write(address, data),
    ensures
        after.read_value(address) == data,
        other % 0x100 != address % 0x100 ==> after.read_value(other) == m.read_value(other),
{
}

/// A byte written to high RAM reads back at the same address, and other addresses of the
/// 0x80-byte window keep their byte.
pub proof fn law_hram_round_trip(m: HighRAM, after: HighRAM, address: u16, other: u16, data: u8)
    requires
        m.wf(),
        after@ == m.after_write(address, data),
    ensures
        after.read_value(address) == data,
        other % 0x80 != address % 0x80 ==> after.read_value(other) == m.read_value(other),
{
}

/// The boot ROM is read-only, and it shows its low part at 0x000-0x0FF and its high part at
/// 0x200-0x8FF.
pub proof fn law_boot_rom_read_only(m: BootROM, address: u16, data: u8)
    requires
        m.wf(),
    ensures
        m.after_write(address, data) == m@,
        address < 0x100 ==> m.read_value(address) == m@[address as int],
        0x200 <= address <= 0x8FF ==> m.read_value(address) == m@[address - 0x100],
{
}

} // verus!
