//! The unified 16-bit address-space memory: a byte store whose reads always
//! succeed and whose writes may be refused while the boot lock holds the
//! boot-ROM region read-only. A write to the DMA trigger address raises a
//! flag that the surrounding system polls.

use vstd::prelude::*;

verus! {

/// The boot ROM occupies addresses up to this one.
pub const BOOT_ROM_END: u16 = 0x00FF;

/// The register that locks the boot-ROM region against writes.
pub const BOOTLOCKER_ADDRESS: u16 = 0xFF50;

pub const BOOTLOCKER_LOCKED: u8 = 0x01;

pub const BOOTLOCKER_UNLOCKED: u8 = 0x00;

/// A write here requests a DMA transfer.
pub const DMA_ADDRESS: u16 = 0xFF46;

pub struct RAM {
    data: Vec<u8>,
    capacity: usize,
    dma_requested: bool,
}

impl View for RAM {
    type V = Seq<u8>;

    closed spec fn view(&self) -> Seq<u8> {
        self.data@
    }
}

impl RAM {
    /// The memory covers the full 16-bit address space.
    pub open spec fn wf(&self) -> bool {
        self@.len() == 0x10000
    }

    /// Whether a write to the DMA trigger address has been seen since the
    /// flag was last cleared.
    pub closed spec fn spec_dma_requested(&self) -> bool {
        self.dma_requested
    }

    /// Whether the boot lock is set, so that writes into the boot-ROM
    /// region are refused.
    pub open spec fn locked(&self) -> bool {
        self@[BOOTLOCKER_ADDRESS as int] == BOOTLOCKER_LOCKED
    }

    /// What one write does: refused (and dropped) inside the locked
    /// boot-ROM region, stored everywhere else, with the DMA flag raised by
    /// a write to the DMA trigger address.
    pub open spec fn spec_write_allowed(&self, address: u16) -> bool {
        !(self.locked() && address <= BOOT_ROM_END)
    }

    /// Whether the boot lock is set in a given memory image.
    pub open spec fn spec_locked(mem: Seq<u8>) -> bool {
        mem[BOOTLOCKER_ADDRESS as int] == BOOTLOCKER_LOCKED
    }

    /// A fresh memory: every byte zero, no DMA request pending.
    pub fn new() -> (r: RAM)
        ensures
            r.wf(),
            forall|i: int| 0 <= i < 0x10000 ==> r@[i] == 0,
            !r.spec_dma_requested(),
    {
        let capacity: usize = 0x10000;
        let mut data: Vec<u8> = Vec::new();
        let mut i: usize = 0;
        while i < 0x10000
            invariant
                i <= 0x10000,
                data@.len() == i,
                forall|j: int| 0 <= j < i ==> data@[j] == 0,
            decreases 0x10000 - i,
        {
            data.push(0);
            i = i + 1;
        }
        RAM { data, capacity, dma_requested: false }
    }

    /// Reads one byte; a read never fails.
    pub fn get_at(&self, address: u16) -> (r: Option<u8>)
        requires
            self.wf(),
        ensures
            r == Some(self@[address as int]),
    {
        Some(self.data[address as usize])
    }

    /// Writes one byte. The write is refused exactly when the boot lock is
    /// set and the address lies in the boot-ROM region; a refused write
    /// leaves the memory unchanged. A write to the DMA trigger address also
    /// raises the DMA flag.
    pub fn set_at(&mut self, address: u16, value: u8) -> (r: Option<()>)
        requires
            old(self).wf(),
        ensures
            final(self).wf(),
            r is Some <==> old(self).spec_write_allowed(address),
            old(self).spec_write_allowed(address) ==> final(self)@ == old(self)@.update(
                address as int,
                value,
            ) && final(self).spec_dma_requested() == (old(self).spec_dma_requested() || address
                == DMA_ADDRESS),
            !old(self).spec_write_allowed(address) ==> final(self)@ == old(self)@
                && final(self).spec_dma_requested() == old(self).spec_dma_requested(),
    {
        if self.data[BOOTLOCKER_ADDRESS as usize] == BOOTLOCKER_LOCKED {
            if address <= BOOT_ROM_END {
                return None;
            }
        }
        if address == DMA_ADDRESS {
            self.dma_requested = true;
        }
        self.data.set(address as usize, value);
        Some(())
    }

    pub fn was_dma_requested(&self) -> (r: bool)
        ensures
            r == self.spec_dma_requested(),
    {
        self.dma_requested
    }

    pub fn reset_dma_request(&mut self)
        ensures
            final(self)@ == old(self)@,
            !final(self).spec_dma_requested(),
    {
        self.dma_requested = false;
    }

    /// Reads the 16 bytes of one tile. A non-negative offset counts tiles up
    /// from the start address; a negative-mode offset is taken as a signed
    /// byte shifted into the range 0..256 tiles.
    pub fn get_tile_data(
        &self,
        start_address: u16,
        offset: u8,
        is_offset_negative: bool,
    ) -> (r: [u8; 16])
        requires
            self.wf(),
            spec_tile_base(start_address, offset, is_offset_negative) + 16 <= 0x10000,
            !is_offset_negative ==> start_address + 16 * offset <= 0xFFFF,
        ensures
            forall|i: int|
                0 <= i < 16 ==> r@[i] == self@[spec_tile_base(
                    start_address,
                    offset,
                    is_offset_negative,
                ) + i],
    {
        let adjusted_offset: usize = if is_offset_negative {
            (((offset as i8) as i32 + 128) * 16 + start_address as i32) as usize
        } else {
            (start_address + (offset as u16) * 16) as usize
        };
        let mut result: [u8; 16] = [0;16];
        let mut i: usize = 0;
        while i < 16
            invariant
                self.wf(),
                i <= 16,
                adjusted_offset == spec_tile_base(start_address, offset, is_offset_negative),
                adjusted_offset + 16 <= 0x10000,
                result@.len() == 16,
                forall|j: int| 0 <= j < i ==> result@[j] == self@[adjusted_offset + j],
            decreases 16 - i,
        {
            result[i] = self.data[adjusted_offset + i];
            i = i + 1;
        }
        result
    }
}

impl Clone for RAM {
    fn clone(&self) -> (r: Self)
        ensures
            r@ == self@,
            r.spec_dma_requested() == self.spec_dma_requested(),
    {
        RAM { data: self.data.clone(), capacity: self.capacity, dma_requested: self.dma_requested }
    }
}

/// The memory after one write: unchanged when the write falls in the locked
/// boot-ROM region, updated everywhere else.
pub open spec fn spec_mem_after_write(mem: Seq<u8>, address: u16, value: u8) -> Seq<u8> {
    if RAM::spec_locked(mem) && address <= BOOT_ROM_END {
        mem
    } else {
        mem.update(address as int, value)
    }
}

/// The DMA flag after one write: raised by a write that reaches the DMA
/// trigger address, kept otherwise.
pub open spec fn spec_dma_after_write(mem: Seq<u8>, dma: bool, address: u16) -> bool {
    if RAM::spec_locked(mem) && address <= BOOT_ROM_END {
        dma
    } else {
        dma || address == DMA_ADDRESS
    }
}

/// The first memory address of the tile that `get_tile_data` reads.
pub open spec fn spec_tile_base(start_address: u16, offset: u8, is_offset_negative: bool) -> int {
    if is_offset_negative {
        ((offset as i8) + 128) * 16 + start_address
    } else {
        start_address + 16 * offset
    }
}

/// A byte-wide hardware register mirrored at a fixed memory address: it can
/// be read and written directly, reset to its power-on value, stored into
/// memory and refreshed from memory.
pub trait MemoryRegister: Sized {
    /// The memory address the register is mirrored at.
    spec fn spec_address(&self) -> u16;

    /// The register's current value.
    spec fn spec_value(&self) -> u8;

    /// The value `reset` restores.
    spec fn spec_reset_value(&self) -> u8;

    fn get_address(&self) -> (r: u16)
        ensures
            r == self.spec_address(),
    ;

    fn get_value(&self) -> (r: u8)
        ensures
            r == self.spec_value(),
    ;

    fn set_value(&mut self, value: u8)
        ensures
            final(self).spec_value() == value,
            final(self).spec_address() == old(self).spec_address(),
            final(self).spec_reset_value() == old(self).spec_reset_value(),
    ;

    fn reset(&mut self)
        ensures
            final(self).spec_value() == old(self).spec_reset_value(),
            final(self).spec_address() == old(self).spec_address(),
            final(self).spec_reset_value() == old(self).spec_reset_value(),
    ;

    /// Stores the register's value at its address; refused exactly as a
    /// plain memory write would be.
    fn load_in_ram(&self, ram: &mut RAM) -> (r: Option<()>)
        requires
            old(ram).wf(),
        ensures
            final(ram).wf(),
            r is Some <==> old(ram).spec_write_allowed(self.spec_address()),
            old(ram).spec_write_allowed(self.spec_address()) ==> final(ram)@ == old(ram)@.update(
                self.spec_address() as int,
                self.spec_value(),
            ) && final(ram).spec_dma_requested() == (old(ram).spec_dma_requested()
                || self.spec_address() == DMA_ADDRESS),
            !old(ram).spec_write_allowed(self.spec_address()) ==> final(ram)@ == old(ram)@
                && final(ram).spec_dma_requested() == old(ram).spec_dma_requested(),
    ;

    /// Refreshes the register's value from the byte at its address.
    fn read_from_ram(&mut self, ram: &RAM)
        requires
            ram.wf(),
        ensures
            final(self).spec_value() == ram@[old(self).spec_address() as int],
            final(self).spec_address() == old(self).spec_address(),
            final(self).spec_reset_value() == old(self).spec_reset_value(),
    ;
}

/// The register that holds the boot lock: once locked, the boot-ROM region
/// refuses writes.
pub struct BootLockMemoryRegister {
    address: u16,
    value: u8,
}

impl BootLockMemoryRegister {
    pub fn new() -> (r: Self)
        ensures
            r.spec_address() == BOOTLOCKER_ADDRESS,
            r.spec_value() == BOOTLOCKER_UNLOCKED,
            r.spec_reset_value() == BOOTLOCKER_UNLOCKED,
    {
        BootLockMemoryRegister { address: BOOTLOCKER_ADDRESS, value: BOOTLOCKER_UNLOCKED }
    }

    pub fn lock(&mut self)
        ensures
            final(self).spec_value() == BOOTLOCKER_LOCKED,
            final(self).spec_address() == old(self).spec_address(),
            final(self).spec_reset_value() == old(self).spec_reset_value(),
    {
        self.value = BOOTLOCKER_LOCKED;
    }

    pub fn unlock(&mut self)
        ensures
            final(self).spec_value() == BOOTLOCKER_UNLOCKED,
            final(self).spec_address() == old(self).spec_address(),
            final(self).spec_reset_value() == old(self).spec_reset_value(),
    {
        self.value = BOOTLOCKER_UNLOCKED;
    }

    pub fn is_unlocked(&self) -> (r: bool)
        ensures
            r == (self.spec_value() == BOOTLOCKER_UNLOCKED),
    {
        self.value == BOOTLOCKER_UNLOCKED
    }
}

impl MemoryRegister for BootLockMemoryRegister {
    closed spec fn spec_address(&self) -> u16 {
        self.address
    }

    closed spec fn spec_value(&self) -> u8 {
        self.value
    }

    closed spec fn spec_reset_value(&self) -> u8 {
        BOOTLOCKER_UNLOCKED
    }

    fn get_address(&self) -> u16 {
        self.address
    }

    fn get_value(&self) -> u8 {
        self.value
    }

    fn set_value(&mut self, value: u8) {
        self.value = value;
    }

    fn reset(&mut self) {
        self.value = BOOTLOCKER_UNLOCKED;
    }

    fn load_in_ram(&self, ram: &mut RAM) -> Option<()> {
        ram.set_at(self.address, self.value)
    }

    fn read_from_ram(&mut self, ram: &RAM) {
        let v = ram.get_at(self.address);
        self.value = v.unwrap();
    }
}

/// The DMG power-on program: 256 bytes that scroll the logo and hand over
/// to the cartridge.
pub struct BootRom {
    contents: [u8; 256],
}

impl View for BootRom {
    type V = Seq<u8>;

    closed spec fn view(&self) -> Seq<u8> {
        self.contents@
    }
}

impl BootRom {
    pub fn new() -> (r: Self)
        ensures
            r@.len() == 256,
    {
        BootRom {
            contents: [
                0x31, 0xfe, 0xff, 0xaf, 0x21, 0xff, 0x9f, 0x32, 0xcb, 0x7c, 0x20, 0xfb, 0x21, 0x26,
                0xff, 0x0e, 0x11, 0x3e, 0x80, 0x32, 0xe2, 0x0c, 0x3e, 0xf3, 0xe2, 0x32, 0x3e, 0x77,
                0x77, 0x3e, 0xfc, 0xe0, 0x47, 0x11, 0x04, 0x01, 0x21, 0x10, 0x80, 0x1a, 0xcd, 0x95,
                0x00, 0xcd, 0x96, 0x00, 0x13, 0x7b, 0xfe, 0x34, 0x20, 0xf3, 0x11, 0xd8, 0x00, 0x06,
                0x08, 0x1a, 0x13, 0x22, 0x23, 0x05, 0x20, 0xf9, 0x3e, 0x19, 0xea, 0x10, 0x99, 0x21,
                0x2f, 0x99, 0x0e, 0x0c, 0x3d, 0x28, 0x08, 0x32, 0x0d, 0x20, 0xf9, 0x2e, 0x0f, 0x18,
                0xf3, 0x67, 0x3e, 0x64, 0x57, 0xe0, 0x42, 0x3e, 0x91, 0xe0, 0x40, 0x04, 0x1e, 0x02,
                0x0e, 0x0c, 0xf0, 0x44, 0xfe, 0x90, 0x20, 0xfa, 0x0d, 0x20, 0xf7, 0x1d, 0x20, 0xf2,
                0x0e, 0x13, 0x24, 0x7c, 0x1e, 0x83, 0xfe, 0x62, 0x28, 0x06, 0x1e, 0xc1, 0xfe, 0x64,
                0x20, 0x06, 0x7b, 0xe2, 0x0c, 0x3e, 0x87, 0xe2, 0xf0, 0x42, 0x90, 0xe0, 0x42, 0x15,
                0x20, 0xd2, 0x05, 0x20, 0x4f, 0x16, 0x20, 0x18, 0xcb, 0x4f, 0x06, 0x04, 0xc5, 0xcb,
                0x11, 0x17, 0xc1, 0xcb, 0x11, 0x17, 0x05, 0x20, 0xf5, 0x22, 0x23, 0x22, 0x23, 0xc9,
                0xce, 0xed, 0x66, 0x66, 0xcc, 0x0d, 0x00, 0x0b, 0x03, 0x73, 0x00, 0x83, 0x00, 0x0c,
                0x00, 0x0d, 0x00, 0x08, 0x11, 0x1f, 0x88, 0x89, 0x00, 0x0e, 0xdc, 0xcc, 0x6e, 0xe6,
                0xdd, 0xdd, 0xd9, 0x99, 0xbb, 0xbb, 0x67, 0x63, 0x6e, 0x0e, 0xec, 0xcc, 0xdd, 0xdc,
                0x99, 0x9f, 0xbb, 0xb9, 0x33, 0x3e, 0x3c, 0x42, 0xb9, 0xa5, 0xb9, 0xa5, 0x42, 0x3c,
                0x21, 0x04, 0x01, 0x11, 0xa8, 0x00, 0x1a, 0x13, 0xbe, 0x20, 0xfe, 0x23, 0x7d, 0xfe,
                0x34, 0x20, 0xf5, 0x06, 0x19, 0x78, 0x86, 0x23, 0x05, 0x20, 0xfb, 0x86, 0x20, 0xfe,
                0x3e, 0x01, 0xe0, 0x50,
            ],
        }
    }

    /// Forgets the boot program, as the hardware does once the lock is set.
    pub fn reset(&mut self)
        ensures
            final(self)@.len() == 256,
            forall|i: int| 0 <= i < 256 ==> final(self)@[i] == 0,
    {
        self.contents = [0;256];
        proof {
            assert(self.contents@ =~= Seq::new(256, |i: int| 0u8));
        }
    }

    /// Copies the boot program into the bottom of memory. While the boot
    /// lock is set every one of these writes is refused and nothing is
    /// stored; otherwise all 256 bytes are stored.
    pub fn load_in_ram(&self, ram: &mut RAM) -> (r: Option<()>)
        requires
            old(ram).wf(),
        ensures
            final(ram).wf(),
            r is Some <==> !old(ram).locked(),
            old(ram).locked() ==> final(ram)@ == old(ram)@,
            !old(ram).locked() ==> (forall|i: int| 0 <= i < 256 ==> final(ram)@[i] == self@[i]) && (
            forall|i: int| 256 <= i < 0x10000 ==> final(ram)@[i] == old(ram)@[i])
                && final(ram).spec_dma_requested() == old(ram).spec_dma_requested(),
    {
        let mut address: usize = 0;
        while address < 256
            invariant
                old(ram).wf(),
                ram.wf(),
                address <= 256,
                address > 0 ==> !old(ram).locked(),
                address > 0 ==> !ram.locked(),
                self@.len() == 256,
                forall|i: int| 0 <= i < address ==> ram@[i] == self@[i],
                forall|i: int| address <= i < 0x10000 ==> ram@[i] == old(ram)@[i],
                ram.spec_dma_requested() == old(ram).spec_dma_requested(),
            decreases 256 - address,
        {
            let res = ram.set_at(address as u16, self.contents[address]);
            if res.is_none() {
                proof {
                    assert(ram@ =~= old(ram)@);
                }
                return res;
            }
            address = address + 1;
        }
        Some(())
    }
}

/// The cartridge-header bytes (the logo) that the boot program checks,
/// placed where a real cartridge would hold them.
pub struct FakeRom {
    address: u16,
    contents: [u8; 48],
}

impl View for FakeRom {
    type V = Seq<u8>;

    closed spec fn view(&self) -> Seq<u8> {
        self.contents@
    }
}

impl FakeRom {
    /// The address the fake header is loaded at.
    pub closed spec fn spec_address(&self) -> u16 {
        self.address
    }

    pub fn new() -> (r: Self)
        ensures
            r@.len() == 48,
            r.spec_address() == 0x0104,
    {
        FakeRom {
            address: 0x0104,
            contents: [
                0xCE, 0xED, 0x66, 0x66, 0xCC, 0x0D, 0x00, 0x0B, 0x03, 0x73, 0x00, 0x83, 0x00, 0x0C,
                0x00, 0x0D, 0x00, 0x08, 0x11, 0x1F, 0x88, 0x89, 0x00, 0x0E, 0xDC, 0xCC, 0x6E, 0xE6,
                0xDD, 0xDD, 0xD9, 0x99, 0xBB, 0xBB, 0x67, 0x63, 0x6E, 0x0E, 0xEC, 0xCC, 0xDD, 0xDC,
                0x99, 0x9F, 0xBB, 0xB9, 0x33, 0x3E,
            ],
        }
    }

    /// Copies the header bytes to their place above the boot-ROM region;
    /// these writes are never refused.
    pub fn load_in_ram(&self, ram: &mut RAM) -> (r: Option<()>)
        requires
            old(ram).wf(),
            self.spec_address() > BOOT_ROM_END,
            self.spec_address() + self@.len() <= 0x10000,
            !(self.spec_address() <= DMA_ADDRESS < self.spec_address() + self@.len()),
            !(self.spec_address() <= BOOTLOCKER_ADDRESS < self.spec_address() + self@.len()),
        ensures
            final(ram).wf(),
            r is Some,
            forall|i: int|
                0 <= i < self@.len() ==> final(ram)@[self.spec_address() + i] == self@[i],
            forall|i: int|
                0 <= i < 0x10000 && !(self.spec_address() <= i < self.spec_address() + self@.len())
                    ==> final(ram)@[i] == old(ram)@[i],
            final(ram).spec_dma_requested() == old(ram).spec_dma_requested(),
    {
        let base = self.address;
        let mut i: usize = 0;
        while i < 48
            invariant
                ram.wf(),
                i <= 48,
                base == self.spec_address(),
                base > BOOT_ROM_END,
                base + 48 <= 0x10000,
                !(base <= DMA_ADDRESS < base + 48),
                !(base <= BOOTLOCKER_ADDRESS < base + 48),
                self@.len() == 48,
                forall|j: int| 0 <= j < i ==> ram@[base + j] == self@[j],
                forall|j: int|
                    0 <= j < 0x10000 && !(base <= j < base + i) ==> ram@[j] == old(ram)@[j],
                ram.spec_dma_requested() == old(ram).spec_dma_requested(),
            decreases 48 - i,
        {
            ram.set_at(base + (i as u16), self.contents[i]);
            i = i + 1;
        }
        Some(())
    }
}

/// A stand-in for the cartridge header checksum byte that the boot program
/// verifies.
pub struct FakeChecksum {
    address: u16,
    value: u8,
}

impl FakeChecksum {
    pub fn new() -> (r: Self)
        ensures
            r.spec_address() == 0x014D,
            r.spec_value() == 0xE7,
            r.spec_reset_value() == 0xE7,
    {
        FakeChecksum { address: 0x014D, value: 0xE7 }
    }
}

impl MemoryRegister for FakeChecksum {
    closed spec fn spec_address(&self) -> u16 {
        self.address
    }

    closed spec fn spec_value(&self) -> u8 {
        self.value
    }

    closed spec fn spec_reset_value(&self) -> u8 {
        0xE7
    }

    fn get_address(&self) -> u16 {
        self.address
    }

    fn get_value(&self) -> u8 {
        self.value
    }

    fn set_value(&mut self, value: u8) {
        self.value = value;
    }

    fn reset(&mut self) {
        self.value = 0xE7;
    }

    fn load_in_ram(&self, ram: &mut RAM) -> Option<()> {
        ram.set_at(self.address, self.value)
    }

    fn read_from_ram(&mut self, ram: &RAM) {
        let v = ram.get_at(self.address);
        self.value = v.unwrap();
    }
}

} // verus!
