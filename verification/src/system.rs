//! The assembled system: one CPU and one memory, booted by loading the boot
//! program behind the boot lock and a stand-in cartridge header, then
//! stepped one instruction at a time. Pacing, display and sound live with
//! their own collaborators outside the core.

use crate::cpu::Exec;
use crate::cpu::SM83;
use crate::cpu::StepError;
use crate::cpu::exec_state;
use crate::cpu::spec_step;
use crate::opcodes::spec_decode_base;
use crate::ram::BootLockMemoryRegister;
use crate::ram::BootRom;
use crate::ram::FakeRom;
use crate::ram::MemoryRegister;
use crate::ram::RAM;
use crate::snapshot::SM83Snapshot;
use vstd::prelude::*;

verus! {

pub struct System {
    cpu: SM83,
    ram: RAM,
    boot_rom: BootRom,
    bootlock_register: BootLockMemoryRegister,
}

impl System {
    /// The machine state held by the CPU and the memory together.
    pub closed spec fn state(&self) -> Exec {
        exec_state(&self.cpu, &self.ram)
    }

    /// The boot program image.
    pub closed spec fn spec_boot_rom(&self) -> Seq<u8> {
        self.boot_rom@
    }

    pub closed spec fn wf(&self) -> bool {
        &&& self.ram.wf()
        &&& self.cpu.wf()
        &&& self.bootlock_register.spec_address() == crate::ram::BOOTLOCKER_ADDRESS
        &&& self.boot_rom@.len() == 256
    }

    /// A fresh system: a zeroed CPU over a zeroed memory, boot program
    /// ready to load.
    pub fn new() -> (r: System)
        ensures
            r.wf(),
            r.state().cyc == 0,
            !RAM::spec_locked(r.state().mem),
            forall|i: int| 0 <= i < 0x10000 ==> r.state().mem[i] == 0,
    {
        System {
            cpu: SM83::new(),
            ram: RAM::new(),
            boot_rom: BootRom::new(),
            bootlock_register: BootLockMemoryRegister::new(),
        }
    }

    /// Loads the boot program into the bottom of memory, locks the boot-ROM
    /// region behind it, places the stand-in cartridge header, and resets
    /// the CPU so that IR holds the boot program's first opcode with PC one
    /// past it.
    pub fn boot(&mut self)
        requires
            old(self).wf(),
            !RAM::spec_locked(old(self).state().mem),
        ensures
            final(self).wf(),
            forall|i: int|
                0 <= i < 256 ==> final(self).state().mem[i] == old(self).spec_boot_rom()[i],
            RAM::spec_locked(final(self).state().mem),
            final(self).state().m == (crate::registers::RegisterModel {
                ir: old(self).spec_boot_rom()[0],
                pc: 1u16,
                ..old(self).state().m
            }),
            final(self).state().cyc == old(self).state().cyc,
            final(self).state().ime == old(self).state().ime,
    {
        self.bootlock_register.lock();
        let loaded = self.boot_rom.load_in_ram(&mut self.ram);
        proof {
            assert(loaded is Some);
        }
        let locked = self.bootlock_register.load_in_ram(&mut self.ram);
        proof {
            assert(locked is Some);
        }
        let fakerom = FakeRom::new();
        let placed = fakerom.load_in_ram(&mut self.ram);
        proof {
            assert(placed is Some);
        }
        self.cpu.reset(&self.ram);
    }

    /// Runs one instruction. A completed DMA request is acknowledged and
    /// cleared; the transfer itself belongs to a collaborator outside the
    /// core.
    pub fn next(&mut self) -> (r: Result<(), StepError>)
        requires
            old(self).wf(),
            old(self).state().cyc + 6 <= u128::MAX,
        ensures
            final(self).wf(),
            r is Ok <==> spec_decode_base(old(self).state().m.ir) is Some,
            r is Ok ==> final(self).state() == (Exec { dma: false, ..spec_step(old(self).state()) }),
            r is Err ==> final(self).state() == old(self).state(),
    {
        let r = self.cpu.next(&mut self.ram);
        if r.is_err() {
            return r;
        }
        if self.ram.was_dma_requested() {
            self.ram.reset_dma_request();
        }
        proof {
            assert(final(self).state() =~= (Exec {
                dma: false,
                ..spec_step(old(self).state())
            }));
        }
        r
    }

    /// M-cycles executed since the system was created.
    pub fn cycle_count(&self) -> (r: u128)
        ensures
            r as int == self.state().cyc,
    {
        self.cpu.get_cycle_count()
    }

    /// The CPU's observable state.
    pub fn to_snapshot(&self) -> (r: SM83Snapshot)
        ensures
            r.ir == self.state().m.ir,
            r.pc == self.state().m.pc,
            r.sp == self.state().m.sp,
            r.a == self.state().m.a && r.f == self.state().m.f,
            r.b == self.state().m.b && r.c == self.state().m.c,
            r.d == self.state().m.d && r.e == self.state().m.e,
            r.h == self.state().m.h && r.l == self.state().m.l,
            r.ie == self.state().m.ie,
            r.address_bus == self.state().ab,
            r.data_bus == self.state().db,
            r.ime == self.state().ime,
    {
        self.cpu.to_snapshot()
    }

    /// A copy of the memory, for collaborators that render or play from it.
    pub fn get_ram(&self) -> (r: RAM)
        requires
            self.wf(),
        ensures
            r.wf(),
            r@ == self.state().mem,
    {
        self.ram.clone()
    }
}

} // verus!
