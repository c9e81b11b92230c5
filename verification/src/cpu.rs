//! The SM83 CPU core. `next` executes exactly one instruction: the opcode
//! already held in IR is decoded and run as a fixed micro-sequence of reads,
//! writes and ALU steps, each memory cycle ticking the cycle counter once,
//! and the final cycle fetches the next instruction into IR with PC advanced
//! past it. The low nibble of F stays zero across every operation.

use crate::alu::ALU;
use crate::alu::spec_add3_flags;
use crate::alu::spec_add3_result;
use crate::alu::spec_daa;
use crate::alu::spec_flags;
use crate::alu::spec_sub3_flags;
use crate::alu::spec_sub3_result;
use crate::idu::IDU;
use crate::idu::spec_idu_decrement;
use crate::idu::spec_idu_increment;
use crate::opcodes::CBPrefixOpCode;
use crate::opcodes::OpCode;
use crate::opcodes::spec_decode_base;
use crate::opcodes::spec_decode_cb;
use crate::ram::RAM;
use crate::ram::spec_dma_after_write;
use crate::ram::spec_mem_after_write;
use crate::registers::RegisterFile;
use crate::registers::RegisterModel;
use crate::registers::RegisterName;
use crate::registers::spec_get_dd;
use crate::registers::spec_get_qq;
use crate::registers::spec_get_r8;
use crate::registers::spec_set_dd;
use crate::registers::spec_set_qq;
use crate::registers::spec_set_r8;
use crate::snapshot::SM83Snapshot;
use vstd::prelude::*;

verus! {

/// The diagnostic carried by a fatal decoding failure: the opcode byte that
/// was not recognized, the program counter, and the full register state.
#[derive(Debug)]
pub struct StepError {
    pub opcode: u8,
    pub pc: u16,
    pub registers: SM83Snapshot,
}

pub struct SM83 {
    /// M-cycles executed since the CPU was created; incremented exactly once
    /// per cycle and never decreased.
    pub cycle_count: u128,
    register_file: RegisterFile,
    address_bus: u16,
    data_bus: u8,
    ime: bool,
    pending_ei: bool,
}

impl SM83 {
    /// M-cycles executed so far.
    pub closed spec fn cycles(&self) -> u128 {
        self.cycle_count
    }

    /// The register file's mathematical content.
    pub closed spec fn regs(&self) -> RegisterModel {
        self.register_file@
    }

    /// The address of the most recent memory operation or IDU step.
    pub closed spec fn abus(&self) -> u16 {
        self.address_bus
    }

    /// The byte most recently read or written.
    pub closed spec fn dbus(&self) -> u8 {
        self.data_bus
    }

    /// The interrupt master enable.
    pub closed spec fn ime_on(&self) -> bool {
        self.ime
    }

    /// Whether an EI is waiting to raise IME at the start of the next
    /// instruction.
    pub closed spec fn ei_pending(&self) -> bool {
        self.pending_ei
    }

    /// The flag register's low nibble is always zero.
    pub open spec fn wf(&self) -> bool {
        self.regs().wf()
    }

    /// The snapshot that `to_snapshot` captures.
    pub open spec fn spec_snapshot(&self) -> SM83Snapshot {
        SM83Snapshot {
            address_bus: self.abus(),
            data_bus: self.dbus(),
            ir: self.regs().ir,
            ie: self.regs().ie,
            a: self.regs().a,
            b: self.regs().b,
            c: self.regs().c,
            d: self.regs().d,
            e: self.regs().e,
            f: self.regs().f,
            h: self.regs().h,
            l: self.regs().l,
            sp: self.regs().sp,
            pc: self.regs().pc,
            ime: self.ime_on(),
        }
    }

    /// A freshly created CPU: registers and buses zeroed, IME off, no cycles
    /// counted.
    pub fn new() -> (r: SM83)
        ensures
            r.wf(),
            r.cycles() == 0,
            r.regs() == (RegisterModel {
                ir: 0,
                ie: 0,
                a: 0,
                f: 0,
                b: 0,
                c: 0,
                d: 0,
                e: 0,
                h: 0,
                l: 0,
                pc: 0,
                sp: 0,
            }),
            r.abus() == 0 && r.dbus() == 0,
            !r.ime_on() && !r.ei_pending(),
    {
        proof {
            crate::bits::lemma_u8_masks();
        }
        SM83 {
            cycle_count: 0,
            register_file: RegisterFile::new(),
            address_bus: 0,
            data_bus: 0,
            ime: false,
            pending_ei: false,
        }
    }

    /// Overwrites every register, both buses and IME from a snapshot. The
    /// write to F masks its low nibble off, as every write to F does.
    pub fn load_snapshot(&mut self, snapshot: SM83Snapshot)
        ensures
            final(self).wf(),
            final(self).regs() == (RegisterModel {
                ir: snapshot.ir,
                ie: snapshot.ie,
                a: snapshot.a,
                f: snapshot.f & 0xF0,
                b: snapshot.b,
                c: snapshot.c,
                d: snapshot.d,
                e: snapshot.e,
                h: snapshot.h,
                l: snapshot.l,
                pc: snapshot.pc,
                sp: snapshot.sp,
            }),
            final(self).abus() == snapshot.address_bus,
            final(self).dbus() == snapshot.data_bus,
            final(self).ime_on() == snapshot.ime,
            !final(self).ei_pending(),
            final(self).cycles() == old(self).cycles(),
    {
        self.address_bus = snapshot.address_bus;
        self.data_bus = snapshot.data_bus;
        self.register_file.set_ir(snapshot.ir);
        self.register_file.set_ie(snapshot.ie);
        self.ime = snapshot.ime;
        self.pending_ei = false;
        self.register_file.set_a(snapshot.a);
        self.register_file.set_b(snapshot.b);
        self.register_file.set_c(snapshot.c);
        self.register_file.set_d(snapshot.d);
        self.register_file.set_e(snapshot.e);
        self.register_file.set_f(snapshot.f);
        self.register_file.set_h(snapshot.h);
        self.register_file.set_l(snapshot.l);
        self.register_file.set_sp(snapshot.sp);
        self.register_file.set_pc(snapshot.pc);
    }

    /// Captures the whole observable CPU state.
    pub fn to_snapshot(&self) -> (r: SM83Snapshot)
        ensures
            r == self.spec_snapshot(),
    {
        let rf = &self.register_file;
        SM83Snapshot::new().with_address_bus(self.address_bus).with_data_bus(
            self.data_bus,
        ).with_ir(rf.get_ir()).with_ie(rf.get_ie()).with_ime(self.ime).with_a(rf.get_a()).with_b(
            rf.get_b(),
        ).with_c(rf.get_c()).with_d(rf.get_d()).with_e(rf.get_e()).with_f(rf.get_f()).with_h(
            rf.get_h(),
        ).with_l(rf.get_l()).with_sp(rf.get_sp()).with_pc(rf.get_pc())
    }

    pub fn interrupt_enabled(&self) -> (r: bool)
        ensures
            r == self.ime_on(),
    {
        self.ime
    }

    /// Sets PC to 0x0000 and performs one fetch, so that IR holds the opcode
    /// at address zero and PC points one past it.
    pub fn reset(&mut self, ram: &RAM)
        requires
            old(self).wf(),
            ram.wf(),
        ensures
            final(self).wf(),
            final(self).regs() == (RegisterModel {
                ir: ram@[0],
                pc: 1u16,
                ..old(self).regs()
            }),
            final(self).dbus() == ram@[0],
            final(self).abus() == 1,
            final(self).ime_on() == old(self).ime_on(),
            final(self).ei_pending() == old(self).ei_pending(),
            final(self).cycles() == old(self).cycles(),
    {
        self.register_file.set_pc(0x00);
        self.fetch_cycle(ram);
    }

    fn idu_increment(&mut self)
        ensures
            *final(self) == (SM83 { address_bus: spec_idu_increment(old(self).abus()), ..*old(self) }),
    {
        let res = IDU::increment(self.address_bus);
        self.address_bus = res;
    }

    fn idu_decrement(&mut self)
        ensures
            *final(self) == (SM83 { address_bus: spec_idu_decrement(old(self).abus()), ..*old(self) }),
    {
        let res = IDU::decrement(self.address_bus);
        self.address_bus = res;
    }

    /// Advances PC by one through the IDU; the address bus holds the new PC.
    fn increase_pc(&mut self)
        ensures
            final(self).regs() == (RegisterModel {
                pc: spec_idu_increment(old(self).regs().pc),
                ..old(self).regs()
            }),
            final(self).abus() == spec_idu_increment(old(self).regs().pc),
            final(self).dbus() == old(self).dbus(),
            final(self).ime_on() == old(self).ime_on(),
            final(self).ei_pending() == old(self).ei_pending(),
            final(self).cycles() == old(self).cycles(),
    {
        self.address_bus = self.register_file.get_pc();
        self.idu_increment();
        self.register_file.set_pc(self.address_bus);
    }

    /// One fetch: reads the byte at PC into IR and advances PC. The tick for
    /// this cycle is issued by the caller, because the fetch overlaps the
    /// final cycle of the instruction that runs it.
    pub fn fetch_cycle(&mut self, ram: &RAM)
        requires
            ram.wf(),
        ensures
            final(self).regs() == (RegisterModel {
                ir: ram@[old(self).regs().pc as int],
                pc: spec_idu_increment(old(self).regs().pc),
                ..old(self).regs()
            }),
            final(self).dbus() == ram@[old(self).regs().pc as int],
            final(self).abus() == spec_idu_increment(old(self).regs().pc),
            final(self).ime_on() == old(self).ime_on(),
            final(self).ei_pending() == old(self).ei_pending(),
            final(self).cycles() == old(self).cycles(),
    {
        self.address_bus = self.register_file.get_pc();
        self.read_ram(ram);
        self.register_file.set_ir(self.data_bus);
        self.increase_pc();
    }

    /// Reads the byte at PC into IR without advancing PC; a test harness
    /// uses this after loading a snapshot, so that `next` sees the opcode
    /// the snapshot's PC points at.
    pub fn prefetch(&mut self, ram: &RAM)
        requires
            ram.wf(),
        ensures
            final(self).regs() == (RegisterModel {
                ir: ram@[old(self).regs().pc as int],
                ..old(self).regs()
            }),
            final(self).dbus() == ram@[old(self).regs().pc as int],
            final(self).abus() == old(self).regs().pc,
            final(self).ime_on() == old(self).ime_on(),
            final(self).ei_pending() == old(self).ei_pending(),
            final(self).cycles() == old(self).cycles(),
    {
        self.address_bus = self.register_file.get_pc();
        self.read_ram(ram);
        self.register_file.set_ir(self.data_bus);
    }

    /// Puts the byte at the address on the address bus onto the data bus.
    fn read_ram(&mut self, ram: &RAM)
        requires
            ram.wf(),
        ensures
            *final(self) == (SM83 { data_bus: ram@[old(self).abus() as int], ..*old(self) }),
    {
        self.data_bus = ram.get_at(self.address_bus).unwrap();
    }

    /// Writes the data bus to the address on the address bus. A refused
    /// write is silently dropped: the memory is unchanged and execution goes
    /// on.
    fn write_ram(&self, ram: &mut RAM)
        requires
            old(ram).wf(),
        ensures
            final(ram).wf(),
            final(ram)@ == spec_mem_after_write(old(ram)@, self.abus(), self.dbus()),
            final(ram).spec_dma_requested() == spec_dma_after_write(
                old(ram)@,
                old(ram).spec_dma_requested(),
                self.abus(),
            ),
    {
        let _ = ram.set_at(self.address_bus, self.data_bus);
    }

    /// Moves SP down one through the IDU; the address bus holds the old SP.
    fn push_stack(&mut self)
        ensures
            final(self).regs() == (RegisterModel {
                sp: spec_idu_decrement(old(self).regs().sp),
                ..old(self).regs()
            }),
            final(self).abus() == spec_idu_decrement(old(self).regs().sp),
            final(self).dbus() == old(self).dbus(),
            final(self).ime_on() == old(self).ime_on(),
            final(self).ei_pending() == old(self).ei_pending(),
            final(self).cycles() == old(self).cycles(),
    {
        self.address_bus = self.register_file.get_sp();
        self.idu_decrement();
        self.register_file.set_sp(self.address_bus);
    }

    /// Moves SP up one through the IDU.
    fn pop_stack(&mut self)
        ensures
            final(self).regs() == (RegisterModel {
                sp: spec_idu_increment(old(self).regs().sp),
                ..old(self).regs()
            }),
            final(self).abus() == spec_idu_increment(old(self).regs().sp),
            final(self).dbus() == old(self).dbus(),
            final(self).ime_on() == old(self).ime_on(),
            final(self).ei_pending() == old(self).ei_pending(),
            final(self).cycles() == old(self).cycles(),
    {
        self.address_bus = self.register_file.get_sp();
        self.idu_increment();
        self.register_file.set_sp(self.address_bus);
    }

    /// One M-cycle.
    fn tick_clock(&mut self)
        requires
            old(self).cycle_count < u128::MAX,
        ensures
            *final(self) == (SM83 { cycle_count: (old(self).cycle_count + 1) as u128, ..*old(self) }),
    {
        self.cycle_count = self.cycle_count + 1;
    }

    /// ADD/ADC into the accumulator: the carry flag feeds the carry-in when
    /// `carry` is set.
    fn add(&mut self, val: u8, carry: bool)
        ensures
            final(self).regs() == spec_alu_add(old(self).regs(), val, carry),
            final(self).wf(),
            final(self).abus() == old(self).abus(),
            final(self).dbus() == old(self).dbus(),
            final(self).ime_on() == old(self).ime_on(),
            final(self).ei_pending() == old(self).ei_pending(),
            final(self).cycles() == old(self).cycles(),
    {
        let (sum, flags) = if !carry {
            ALU::add(self.register_file.get_a(), val)
        } else {
            ALU::add3(self.register_file.get_a(), val, self.register_file.get_carry_flag())
        };
        self.register_file.set_a(sum);
        proof {
            crate::alu::lemma_flags_f0(flags);
        }
        self.register_file.set_f(flags);
    }

    /// CP: derives the subtraction flags without touching the accumulator;
    /// returns the difference for SUB/SBC to store.
    fn compare(&mut self, val: u8, carry: bool) -> (r: u8)
        ensures
            final(self).regs() == spec_alu_cp(old(self).regs(), val, carry),
            r == spec_alu_sub(old(self).regs(), val, carry).a,
            final(self).wf(),
            final(self).abus() == old(self).abus(),
            final(self).dbus() == old(self).dbus(),
            final(self).ime_on() == old(self).ime_on(),
            final(self).ei_pending() == old(self).ei_pending(),
            final(self).cycles() == old(self).cycles(),
    {
        let (diff, flags) = if !carry {
            ALU::sub(self.register_file.get_a(), val)
        } else {
            ALU::sub3(self.register_file.get_a(), val, self.register_file.get_carry_flag())
        };
        proof {
            crate::alu::lemma_flags_f0(flags);
        }
        self.register_file.set_f(flags);
        diff
    }

    /// SUB/SBC into the accumulator.
    fn sub(&mut self, val: u8, carry: bool)
        ensures
            final(self).regs() == spec_alu_sub(old(self).regs(), val, carry),
            final(self).wf(),
            final(self).abus() == old(self).abus(),
            final(self).dbus() == old(self).dbus(),
            final(self).ime_on() == old(self).ime_on(),
            final(self).ei_pending() == old(self).ei_pending(),
            final(self).cycles() == old(self).cycles(),
    {
        let diff = self.compare(val, carry);
        self.register_file.set_a(diff);
    }

    /// AND into the accumulator.
    fn and(&mut self, val: u8)
        ensures
            final(self).regs() == spec_alu_and(old(self).regs(), val),
            final(self).wf(),
            final(self).abus() == old(self).abus(),
            final(self).dbus() == old(self).dbus(),
            final(self).ime_on() == old(self).ime_on(),
            final(self).ei_pending() == old(self).ei_pending(),
            final(self).cycles() == old(self).cycles(),
    {
        let (res, flags) = ALU::and(self.register_file.get_a(), val);
        self.register_file.set_a(res);
        proof {
            crate::alu::lemma_flags_f0(flags);
            crate::bits::lemma_u8_masks();
            assert(flags & 0x5F == 0 ==> flags & 0x0F == 0) by (bit_vector);
        }
        self.register_file.set_f(flags);
    }

    /// OR into the accumulator.
    fn or(&mut self, val: u8)
        ensures
            final(self).regs() == spec_alu_or(old(self).regs(), val),
            final(self).wf(),
            final(self).abus() == old(self).abus(),
            final(self).dbus() == old(self).dbus(),
            final(self).ime_on() == old(self).ime_on(),
            final(self).ei_pending() == old(self).ei_pending(),
            final(self).cycles() == old(self).cycles(),
    {
        let (res, flags) = ALU::or(self.register_file.get_a(), val);
        self.register_file.set_a(res);
        proof {
            crate::alu::lemma_flags_f0(flags);
            assert(flags & 0x7F == 0 ==> flags & 0x0F == 0) by (bit_vector);
        }
        self.register_file.set_f(flags);
    }

    /// XOR into the accumulator.
    fn xor(&mut self, val: u8)
        ensures
            final(self).regs() == spec_alu_xor(old(self).regs(), val),
            final(self).wf(),
            final(self).abus() == old(self).abus(),
            final(self).dbus() == old(self).dbus(),
            final(self).ime_on() == old(self).ime_on(),
            final(self).ei_pending() == old(self).ei_pending(),
            final(self).cycles() == old(self).cycles(),
    {
        let (res, flags) = ALU::xor(self.register_file.get_a(), val);
        self.register_file.set_a(res);
        proof {
            crate::alu::lemma_flags_f0(flags);
            assert(flags & 0x7F == 0 ==> flags & 0x0F == 0) by (bit_vector);
        }
        self.register_file.set_f(flags);
    }

    /// Evaluates a 2-bit condition code against the flags.
    fn code_to_condition(&self, code: u8) -> (r: bool)
        ensures
            r == spec_condition(self.regs().f, code),
    {
        if code == 0b00 {
            self.register_file.get_zero_flag() == 0
        } else if code == 0b01 {
            self.register_file.get_zero_flag() > 0
        } else if code == 0b10 {
            self.register_file.get_carry_flag() == 0
        } else if code == 0b11 {
            self.register_file.get_carry_flag() > 0
        } else {
            false
        }
    }

    /// The restart page address that a 3-bit code selects: the code times 8.
    fn code_to_page_memory(&self, code: u8) -> (r: u8)
        requires
            code < 8,
        ensures
            r == 8 * code,
    {
        if code == 0b000 {
            0x00
        } else if code == 0b001 {
            0x08
        } else if code == 0b010 {
            0x10
        } else if code == 0b011 {
            0x18
        } else if code == 0b100 {
            0x20
        } else if code == 0b101 {
            0x28
        } else if code == 0b110 {
            0x30
        } else {
            0x38
        }
    }

    /// Reads a 16-bit little-endian immediate at the address bus, ticking
    /// once per byte and advancing PC past both bytes.
    fn read_16b_ram(&mut self, ram: &RAM) -> (r: u16)
        requires
            ram.wf(),
            old(self).cycles() + 2 <= u128::MAX,
        ensures
            exec_state(final(self), ram) == exec_state(old(self), ram).read16().0,
            r == exec_state(old(self), ram).read16().1,
    {
        proof {
            crate::bits::lemma_u16_compose();
        }
        self.read_ram(ram);
        let value = self.data_bus as u16;
        self.increase_pc();
        self.tick_clock();
        self.read_ram(ram);
        let value = ((self.data_bus as u16) << 8) | value;
        self.increase_pc();
        self.tick_clock();
        value
    }

    /// Runs one of the 8-bit load opcodes, up to but not including the
    /// shared final tick.
    fn exec_load8(&mut self, ram: &mut RAM, op: OpCode, ir: u8)
        requires
            old(self).wf(),
            old(ram).wf(),
            ir == old(self).regs().ir,
            spec_decode_base(ir) == Some(op),
            spec_is_load8(op),
            old(self).cycles() + 5 <= u128::MAX,
        ensures
            final(self).wf(),
            final(ram).wf(),
            exec_state(final(self), final(ram)) == spec_op(exec_state(old(self), old(ram)), op),
            old(self).cycles() <= final(self).cycles() <= old(self).cycles() + 3,
    {
        proof {
            crate::bits::lemma_u8_masks();
            crate::bits::lemma_u16_bytes();
            crate::bits::lemma_u16_compose();
            lemma_decode_operands(ir);
        }
        match op {
            OpCode::LD_HL_n => {
                self.read_ram(ram);
                self.increase_pc();
                self.tick_clock();
                self.address_bus = self.register_file.get_hl();
                self.write_ram(ram);
                self.tick_clock();
                self.fetch_cycle(ram);
            },
            OpCode::LD_A_BC => {
                self.address_bus = self.register_file.get_bc();
                self.read_ram(ram);
                self.tick_clock();
                self.register_file.set_a(self.data_bus);
                self.fetch_cycle(ram);
            },
            OpCode::LD_A_DE => {
                self.address_bus = self.register_file.get_de();
                self.read_ram(ram);
                self.tick_clock();
                self.register_file.set_a(self.data_bus);
                self.fetch_cycle(ram);
            },
            OpCode::LD_BC_A => {
                self.address_bus = self.register_file.get_bc();
                self.data_bus = self.register_file.get_a();
                self.write_ram(ram);
                self.tick_clock();
                self.fetch_cycle(ram);
            },
            OpCode::LD_DE_A => {
                self.address_bus = self.register_file.get_de();
                self.data_bus = self.register_file.get_a();
                self.write_ram(ram);
                self.tick_clock();
                self.fetch_cycle(ram);
            },
            OpCode::LD_A_nn => {
                let val = self.read_16b_ram(ram);
                self.address_bus = val;
                self.read_ram(ram);
                self.tick_clock();
                self.register_file.set_a(self.data_bus);
                self.fetch_cycle(ram);
            },
            OpCode::LD_nn_A => {
                let val = self.read_16b_ram(ram);
                self.address_bus = val;
                self.data_bus = self.register_file.get_a();
                self.write_ram(ram);
                self.tick_clock();
                self.fetch_cycle(ram);
            },
            OpCode::LDH_A_C => {
                self.address_bus = 0xFF00 | (self.register_file.get_c() as u16);
                self.read_ram(ram);
                self.tick_clock();
                self.register_file.set_a(self.data_bus);
                self.fetch_cycle(ram);
            },
            OpCode::LDH_C_A => {
                self.address_bus = 0xFF00 | (self.register_file.get_c() as u16);
                self.data_bus = self.register_file.get_a();
                self.write_ram(ram);
                self.tick_clock();
                self.fetch_cycle(ram);
            },
            OpCode::LDH_A_n => {
                self.read_ram(ram);
                self.increase_pc();
                self.tick_clock();
                self.address_bus = 0xFF00 | (self.data_bus as u16);
                self.read_ram(ram);
                self.tick_clock();
                self.register_file.set_a(self.data_bus);
                self.fetch_cycle(ram);
            },
            OpCode::LDH_n_A => {
                self.read_ram(ram);
                self.increase_pc();
                self.tick_clock();
                self.address_bus = 0xFF00 | (self.data_bus as u16);
                self.data_bus = self.register_file.get_a();
                self.write_ram(ram);
                self.tick_clock();
                self.fetch_cycle(ram);
            },
            OpCode::LD_A_HLm | OpCode::LD_A_HLp => {
                self.address_bus = self.register_file.get_hl();
                self.read_ram(ram);
                if op == OpCode::LD_A_HLm {
                    self.idu_decrement();
                } else {
                    self.idu_increment();
                }
                self.register_file.set_hl(self.address_bus);
                self.tick_clock();
                self.register_file.set_a(self.data_bus);
                self.fetch_cycle(ram);
            },
            OpCode::LD_HLm_A | OpCode::LD_HLp_A => {
                self.address_bus = self.register_file.get_hl();
                self.data_bus = self.register_file.get_a();
                self.write_ram(ram);
                if op == OpCode::LD_HLm_A {
                    self.idu_decrement();
                } else {
                    self.idu_increment();
                }
                self.register_file.set_hl(self.address_bus);
                self.tick_clock();
                self.fetch_cycle(ram);
            },
            OpCode::LD_r_n => {
                let reg = (ir >> 3) & 0x07;
                self.read_ram(ram);
                self.increase_pc();
                self.tick_clock();
                let res = self.register_file.set(reg, self.data_bus);
                proof {
                    assert(res is Ok);
                }
                self.fetch_cycle(ram);
            },
            OpCode::LD_r_r => {
                let target_reg = (ir >> 3) & 0x07;
                let source_reg = ir & 0x07;
                let v = self.register_file.get(source_reg).unwrap();
                let res = self.register_file.set(target_reg, v);
                proof {
                    assert(res is Ok);
                }
                self.fetch_cycle(ram);
            },
            OpCode::LD_r_HL => {
                let target_reg = (ir >> 3) & 0x07;
                let addr = self.register_file.get_hl();
                self.address_bus = addr;
                self.read_ram(ram);
                self.tick_clock();
                let res = self.register_file.set(target_reg, self.data_bus);
                proof {
                    assert(res is Ok);
                }
                self.fetch_cycle(ram);
            },
            OpCode::LD_HL_r => {
                let source_reg = ir & 0x07;
                let addr = self.register_file.get_hl();
                self.address_bus = addr;
                self.data_bus = self.register_file.get(source_reg).unwrap();
                self.write_ram(ram);
                self.tick_clock();
                self.fetch_cycle(ram);
            },
            _ => {
                proof {
                    assert(false);
                }
            },
        }
        proof {
            assert(exec_state(self, ram) =~= spec_op(exec_state(old(self), old(ram)), op));
        }
    }

    /// Runs one of the 16-bit load and stack opcodes, up to but not
    /// including the shared final tick.
    fn exec_load16(&mut self, ram: &mut RAM, op: OpCode, ir: u8)
        requires
            old(self).wf(),
            old(ram).wf(),
            ir == old(self).regs().ir,
            spec_decode_base(ir) == Some(op),
            spec_is_load16(op),
            old(self).cycles() + 5 <= u128::MAX,
        ensures
            final(self).wf(),
            final(ram).wf(),
            exec_state(final(self), final(ram)) == spec_op(exec_state(old(self), old(ram)), op),
            old(self).cycles() <= final(self).cycles() <= old(self).cycles() + 4,
    {
        proof {
            crate::bits::lemma_u8_masks();
            crate::bits::lemma_u16_bytes();
            crate::bits::lemma_u16_compose();
            lemma_decode_operands(ir);
        }
        match op {
            OpCode::LD_rr_nn => {
                let reg = (ir >> 4) & 0x03;
                let value = self.read_16b_ram(ram);
                let res = self.register_file.set16(reg, value);
                proof {
                    assert(res is Ok);
                }
                self.fetch_cycle(ram);
            },
            OpCode::LD_nn_SP => {
                let address = self.read_16b_ram(ram);
                let value = self.register_file.get_sp();
                self.address_bus = address;
                self.data_bus = (value & 0x00FF) as u8;
                self.write_ram(ram);
                self.tick_clock();
                self.idu_increment();
                self.data_bus = ((value & 0xFF00) >> 8) as u8;
                self.write_ram(ram);
                self.tick_clock();
                self.fetch_cycle(ram);
            },
            OpCode::LD_SP_HL => {
                self.address_bus = self.register_file.get_hl();
                self.register_file.set_sp(self.address_bus);
                self.tick_clock();
                self.fetch_cycle(ram);
            },
            OpCode::PUSH_rr => {
                let reg = (ir & 0x30) >> 4;
                let val = self.register_file.get16_qq(reg).unwrap();
                self.push_stack();
                self.tick_clock();
                self.data_bus = ((val & 0xFF00) >> 8) as u8;
                self.write_ram(ram);
                self.push_stack();
                self.tick_clock();
                self.data_bus = (val & 0x00FF) as u8;
                self.write_ram(ram);
                self.tick_clock();
                self.fetch_cycle(ram);
            },
            OpCode::POP_rr => {
                let reg = (ir & 0x30) >> 4;
                self.address_bus = self.register_file.get_sp();
                self.read_ram(ram);
                let val = self.data_bus as u16;
                self.pop_stack();
                self.tick_clock();
                self.read_ram(ram);
                let val = val | ((self.data_bus as u16) << 8);
                self.pop_stack();
                self.tick_clock();
                let res = self.register_file.set16_qq(reg, val);
                proof {
                    assert(res is Ok);
                }
                self.fetch_cycle(ram);
            },
            OpCode::LD_HL_SPe => {
                self.read_ram(ram);
                let e = self.data_bus;
                self.increase_pc();
                self.tick_clock();
                let (sum, flags) = ALU::add(self.register_file.get_p(), e);
                proof {
                    lemma_cpu_flag_bits(self.regs().f, flags);
                }
                self.register_file.set_f(flags & 0x30);
                self.register_file.set_l(sum);
                self.tick_clock();
                let sign = e & 0x80;
                let adj: u8 = if sign > 0 {
                    0xFF
                } else {
                    0x00
                };
                let (sum, _) = ALU::add3(
                    self.register_file.get_s(),
                    adj,
                    self.register_file.get_carry_flag(),
                );
                self.register_file.set_h(sum);
                self.fetch_cycle(ram);
            },
            _ => {
                proof {
                    assert(false);
                }
            },
        }
        proof {
            assert(exec_state(self, ram) =~= spec_op(exec_state(old(self), old(ram)), op));
        }
    }

    /// Runs one of the arithmetic, logical, rotate-accumulator and flag
    /// opcodes, up to but not including the shared final tick.
    fn exec_alu(&mut self, ram: &mut RAM, op: OpCode, ir: u8)
        requires
            old(self).wf(),
            old(ram).wf(),
            ir == old(self).regs().ir,
            spec_decode_base(ir) == Some(op),
            spec_is_alu(op),
            old(self).cycles() + 5 <= u128::MAX,
        ensures
            final(self).wf(),
            final(ram).wf(),
            exec_state(final(self), final(ram)) == spec_op(exec_state(old(self), old(ram)), op),
            old(self).cycles() <= final(self).cycles() <= old(self).cycles() + 3,
    {
        proof {
            crate::bits::lemma_u8_masks();
            crate::bits::lemma_u16_bytes();
            crate::bits::lemma_u16_compose();
            lemma_decode_operands(ir);
        }
        match op {
            OpCode::ADD_r | OpCode::ADC_r | OpCode::SUB_r | OpCode::SBC_r | OpCode::CP_r
                | OpCode::AND_r | OpCode::OR_r | OpCode::XOR_r => {
                let reg = ir & 0x07;
                let val = self.register_file.get(reg).unwrap();
                self.apply_alu(op, val);
                self.fetch_cycle(ram);
            },
            OpCode::ADD_HL | OpCode::ADC_HL | OpCode::SUB_HL | OpCode::SBC_HL | OpCode::CP_HL
                | OpCode::AND_HL | OpCode::OR_HL | OpCode::XOR_HL => {
                self.address_bus = self.register_file.get_hl();
                self.read_ram(ram);
                self.tick_clock();
                let val = self.data_bus;
                self.apply_alu(op, val);
                self.fetch_cycle(ram);
            },
            OpCode::ADD_n | OpCode::ADC_n | OpCode::SUB_n | OpCode::SBC_n | OpCode::CP_n
                | OpCode::AND_n | OpCode::OR_n | OpCode::XOR_n => {
                self.read_ram(ram);
                self.increase_pc();
                self.tick_clock();
                let val = self.data_bus;
                self.apply_alu(op, val);
                self.fetch_cycle(ram);
            },
            OpCode::INC_r | OpCode::DEC_r => {
                let reg = (ir & 0x38) >> 3;
                let v = self.register_file.get(reg).unwrap();
                let (res, flags) = if op == OpCode::INC_r {
                    ALU::increment(v)
                } else {
                    ALU::decrement(v)
                };
                let set_res = self.register_file.set(reg, res);
                proof {
                    assert(set_res is Ok);
                }
                let carry = self.register_file.get_f() & 0x10;
                self.register_file.set_f(flags | carry);
                self.fetch_cycle(ram);
            },
            OpCode::INC_HL | OpCode::DEC_HL => {
                self.address_bus = self.register_file.get_hl();
                self.read_ram(ram);
                self.tick_clock();
                let (res, flags) = if op == OpCode::INC_HL {
                    ALU::increment(self.data_bus)
                } else {
                    ALU::decrement(self.data_bus)
                };
                self.data_bus = res;
                let carry = self.register_file.get_f() & 0x10;
                self.register_file.set_f((flags & 0xE0) | carry);
                self.write_ram(ram);
                self.tick_clock();
                self.fetch_cycle(ram);
            },
            OpCode::CCF => {
                proof {
                    lemma_cpu_flag_bits(self.regs().f, 0);
                }
                self.register_file.unset_half_carry_flag();
                self.register_file.unset_negative_flag();
                self.register_file.flip_carry_flag();
                self.fetch_cycle(ram);
            },
            OpCode::SCF => {
                proof {
                    lemma_cpu_flag_bits(self.regs().f, 0);
                }
                self.register_file.unset_half_carry_flag();
                self.register_file.unset_negative_flag();
                self.register_file.set_carry_flag();
                self.fetch_cycle(ram);
            },
            OpCode::DAA => {
                let (res, flags) = ALU::decimal_adjust(
                    self.register_file.get_a(),
                    self.register_file.get_f(),
                );
                self.register_file.set_a(res);
                proof {
                    crate::alu::lemma_flags_f0(flags);
                }
                self.register_file.set_f(flags);
                self.fetch_cycle(ram);
            },
            OpCode::CPL => {
                proof {
                    lemma_cpu_flag_bits(self.regs().f, 0);
                }
                let a = self.register_file.get_a();
                self.register_file.set_a(!a);
                self.register_file.set_negative_flag();
                self.register_file.set_half_carry_flag();
                self.fetch_cycle(ram);
            },
            OpCode::INC_rr | OpCode::DEC_rr => {
                let reg = (ir & 0x30) >> 4;
                self.address_bus = self.register_file.get16(reg).unwrap();
                if op == OpCode::INC_rr {
                    self.idu_increment();
                } else {
                    self.idu_decrement();
                }
                let res = self.register_file.set16(reg, self.address_bus);
                proof {
                    assert(res is Ok);
                }
                self.tick_clock();
                self.fetch_cycle(ram);
            },
            OpCode::ADD_HL_rr => {
                let reg = (ir & 0x30) >> 4;
                let v1 = self.register_file.get16(reg).unwrap();
                let lsb_v1 = (v1 & 0x00FF) as u8;
                let msb_v1 = ((v1 & 0xFF00) >> 8) as u8;
                let (res_lsb, flags) = ALU::add(lsb_v1, self.register_file.get_l());
                self.register_file.set_l(res_lsb);
                self.tick_clock();
                proof {
                    lemma_cpu_flag_bits(self.regs().f, flags);
                }
                let (res_msb, flags2) = ALU::add3(
                    msb_v1,
                    self.register_file.get_h(),
                    (flags & 0x10) >> 4,
                );
                self.register_file.set_h(res_msb);
                let previous_zero_flag = self.register_file.get_f() & 0x80;
                proof {
                    lemma_cpu_flag_bits(self.regs().f, flags2);
                }
                self.register_file.set_f(previous_zero_flag | (flags2 & 0x7F));
                self.fetch_cycle(ram);
            },
            OpCode::ADD_SP_e => {
                self.read_ram(ram);
                let e = self.data_bus;
                self.increase_pc();
                self.tick_clock();
                let (sum, flags) = ALU::add(self.register_file.get_p(), e);
                let flags = if sum == 0 {
                    flags | 0x80
                } else {
                    flags
                };
                proof {
                    lemma_cpu_flag_bits(self.regs().f, flags);
                }
                self.register_file.set_f(flags & 0x30);
                self.register_file.set_p(sum);
                self.tick_clock();
                let sign = e & 0x80;
                let adj: u8 = if sign > 0 {
                    0xFF
                } else {
                    0x00
                };
                let (sum, _) = ALU::add3(
                    self.register_file.get_s(),
                    adj,
                    self.register_file.get_carry_flag(),
                );
                self.register_file.set_s(sum);
                self.tick_clock();
                self.fetch_cycle(ram);
            },
            OpCode::NOP => {
                self.fetch_cycle(ram);
            },
            OpCode::RLCA | OpCode::RLA | OpCode::RRCA | OpCode::RRA => {
                let (res, flags) = if op == OpCode::RLA {
                    ALU::rotate_left(self.register_file.get_a(), self.register_file.get_carry_flag())
                } else if op == OpCode::RLCA {
                    ALU::rotate_left_circular(self.register_file.get_a())
                } else if op == OpCode::RRA {
                    ALU::rotate_right(
                        self.register_file.get_a(),
                        self.register_file.get_carry_flag(),
                    )
                } else {
                    ALU::rotate_right_circular(self.register_file.get_a())
                };
                self.register_file.set_a(res);
                proof {
                    lemma_cpu_flag_bits(self.regs().f, flags);
                }
                self.register_file.set_f(flags & 0x10);
                self.fetch_cycle(ram);
            },
            _ => {
                proof {
                    assert(false);
                }
            },
        }
        proof {
            assert(exec_state(self, ram) =~= spec_op(exec_state(old(self), old(ram)), op));
        }
    }

    /// Dispatches one arithmetic/logical operation on the accumulator and
    /// an operand byte.
    fn apply_alu(&mut self, op: OpCode, val: u8)
        requires
            spec_is_alu8(op),
        ensures
            final(self).regs() == spec_alu_apply(op, old(self).regs(), val),
            final(self).wf(),
            final(self).abus() == old(self).abus(),
            final(self).dbus() == old(self).dbus(),
            final(self).ime_on() == old(self).ime_on(),
            final(self).ei_pending() == old(self).ei_pending(),
            final(self).cycles() == old(self).cycles(),
    {
        match op {
            OpCode::ADD_r | OpCode::ADD_HL | OpCode::ADD_n => self.add(val, false),
            OpCode::ADC_r | OpCode::ADC_HL | OpCode::ADC_n => self.add(val, true),
            OpCode::SUB_r | OpCode::SUB_HL | OpCode::SUB_n => self.sub(val, false),
            OpCode::SBC_r | OpCode::SBC_HL | OpCode::SBC_n => self.sub(val, true),
            OpCode::CP_r | OpCode::CP_HL | OpCode::CP_n => {
                let _ = self.compare(val, false);
            },
            OpCode::AND_r | OpCode::AND_HL | OpCode::AND_n => self.and(val),
            OpCode::OR_r | OpCode::OR_HL | OpCode::OR_n => self.or(val),
            OpCode::XOR_r | OpCode::XOR_HL | OpCode::XOR_n => self.xor(val),
            _ => {
                proof {
                    assert(false);
                }
            },
        }
    }

    /// Runs one of the control-flow and interrupt opcodes, up to but not
    /// including the shared final tick.
    fn exec_control(&mut self, ram: &mut RAM, op: OpCode, ir: u8)
        requires
            old(self).wf(),
            old(ram).wf(),
            ir == old(self).regs().ir,
            spec_decode_base(ir) == Some(op),
            spec_is_control(op),
            old(self).cycles() + 5 <= u128::MAX,
        ensures
            final(self).wf(),
            final(ram).wf(),
            exec_state(final(self), final(ram)) == spec_op(exec_state(old(self), old(ram)), op),
            old(self).cycles() <= final(self).cycles() <= old(self).cycles() + 5,
    {
        proof {
            crate::bits::lemma_u8_masks();
            crate::bits::lemma_u16_bytes();
            crate::bits::lemma_u16_compose();
            lemma_decode_operands(ir);
        }
        match op {
            OpCode::JP_NN => {
                let val = self.read_16b_ram(ram);
                self.register_file.set_pc(val);
                self.tick_clock();
                self.fetch_cycle(ram);
            },
            OpCode::JP_HL => {
                let hl = self.register_file.get_hl();
                self.register_file.set_pc(hl);
                self.fetch_cycle(ram);
            },
            OpCode::JP_CC_NN => {
                let condition = self.code_to_condition((ir >> 3) & 0x03);
                let val = self.read_16b_ram(ram);
                if condition {
                    self.register_file.set_pc(val);
                    self.tick_clock();
                }
                self.fetch_cycle(ram);
            },
            OpCode::JR_E => {
                self.read_ram(ram);
                let val = self.data_bus;
                self.increase_pc();
                self.tick_clock();
                let new_pc = ALU::add_16_signed(self.register_file.get_pc(), val);
                self.tick_clock();
                self.register_file.set_pc(new_pc);
                self.fetch_cycle(ram);
            },
            OpCode::JR_CC_E => {
                self.read_ram(ram);
                let val = self.data_bus;
                let condition = self.code_to_condition((ir >> 3) & 0x03);
                self.increase_pc();
                self.tick_clock();
                if condition {
                    let new_pc = ALU::add_16_signed(self.register_file.get_pc(), val);
                    self.tick_clock();
                    self.register_file.set_pc(new_pc);
                }
                self.fetch_cycle(ram);
            },
            OpCode::CALL_NN | OpCode::CALL_CC_NN => {
                let val = self.read_16b_ram(ram);
                let condition = if op == OpCode::CALL_CC_NN {
                    self.code_to_condition((ir >> 3) & 0x03)
                } else {
                    true
                };
                if condition {
                    self.push_stack();
                    self.tick_clock();
                    self.data_bus = ((self.register_file.get_pc() & 0xFF00) >> 8) as u8;
                    self.write_ram(ram);
                    self.push_stack();
                    self.tick_clock();
                    self.data_bus = (self.register_file.get_pc() & 0x00FF) as u8;
                    self.write_ram(ram);
                    self.register_file.set_pc(val);
                    self.tick_clock();
                }
                self.fetch_cycle(ram);
            },
            OpCode::RET | OpCode::RET_CC | OpCode::RETI => {
                let condition = if op == OpCode::RET_CC {
                    self.tick_clock();
                    self.code_to_condition((ir >> 3) & 0x03)
                } else {
                    true
                };
                if condition {
                    self.address_bus = self.register_file.get_sp();
                    self.read_ram(ram);
                    let lsb = self.data_bus;
                    self.pop_stack();
                    self.tick_clock();
                    self.read_ram(ram);
                    let msb = self.data_bus;
                    self.pop_stack();
                    self.tick_clock();
                    self.register_file.set_pc(((msb as u16) << 8) | (lsb as u16));
                    self.tick_clock();
                }
                if op == OpCode::RETI {
                    self.ime = true;
                }
                self.fetch_cycle(ram);
            },
            OpCode::RST_N => {
                let code = (ir >> 3) & 0x07;
                let page = self.code_to_page_memory(code);
                self.push_stack();
                self.tick_clock();
                self.data_bus = ((self.register_file.get_pc() & 0xFF00) >> 8) as u8;
                self.write_ram(ram);
                self.push_stack();
                self.tick_clock();
                self.data_bus = (self.register_file.get_pc() & 0x00FF) as u8;
                self.write_ram(ram);
                self.register_file.set_pc(page as u16);
                self.tick_clock();
                self.fetch_cycle(ram);
            },
            OpCode::DI => {
                self.ime = false;
                self.pending_ei = false;
                self.fetch_cycle(ram);
            },
            OpCode::EI => {
                self.pending_ei = true;
                self.fetch_cycle(ram);
            },
            OpCode::HALT => {
                self.fetch_cycle(ram);
                self.address_bus = self.register_file.get_pc();
                self.idu_decrement();
                self.register_file.set_pc(self.address_bus);
            },
            OpCode::STOP => {
                self.fetch_cycle(ram);
            },
            _ => {
                proof {
                    assert(false);
                }
            },
        }
        proof {
            assert(exec_state(self, ram) =~= spec_op(exec_state(old(self), old(ram)), op));
        }
    }

    /// Runs one CB-prefixed instruction: the prefix's own fetch brings the
    /// CB page byte into IR, then the selected bit operation runs, up to but
    /// not including the shared final tick.
    fn exec_cb(&mut self, ram: &mut RAM)
        requires
            old(self).wf(),
            old(ram).wf(),
            spec_decode_base(old(self).regs().ir) == Some(OpCode::CB_PREFIX),
            old(self).cycles() + 5 <= u128::MAX,
        ensures
            final(self).wf(),
            final(ram).wf(),
            exec_state(final(self), final(ram)) == spec_op(
                exec_state(old(self), old(ram)),
                OpCode::CB_PREFIX,
            ),
            old(self).cycles() + 1 <= final(self).cycles() <= old(self).cycles() + 3,
    {
        proof {
            crate::bits::lemma_u8_masks();
        }
        self.fetch_cycle(ram);
        self.tick_clock();
        let cb_ir = self.register_file.get_ir();
        proof {
            lemma_decode_cb_operands(cb_ir);
        }
        let cb_opcode = CBPrefixOpCode::from_ir(cb_ir).unwrap();
        match cb_opcode {
            CBPrefixOpCode::RLC_r => {
                let reg = cb_ir & 0x07;
                let (res, flags) = ALU::rotate_left_circular(self.register_file.get(reg).unwrap());
                self.set_cb_reg(reg, res, flags);
            },
            CBPrefixOpCode::RLC_HL => {
                self.address_bus = self.register_file.get_hl();
                self.read_ram(ram);
                self.tick_clock();
                let (res, flags) = ALU::rotate_left_circular(self.data_bus);
                self.data_bus = res;
                self.write_ram(ram);
                proof {
                    crate::alu::lemma_flags_f0(flags);
                }
                self.register_file.set_f(flags);
                self.tick_clock();
            },
            CBPrefixOpCode::RRC_r => {
                let reg = cb_ir & 0x07;
                let (res, flags) = ALU::rotate_right_circular(self.register_file.get(reg).unwrap());
                self.set_cb_reg(reg, res, flags);
            },
            CBPrefixOpCode::RRC_HL => {
                self.address_bus = self.register_file.get_hl();
                self.read_ram(ram);
                self.tick_clock();
                let (res, flags) = ALU::rotate_right_circular(self.data_bus);
                self.data_bus = res;
                self.write_ram(ram);
                proof {
                    crate::alu::lemma_flags_f0(flags);
                }
                self.register_file.set_f(flags);
                self.tick_clock();
            },
            CBPrefixOpCode::RL_r => {
                let reg = cb_ir & 0x07;
                let (res, flags) = ALU::rotate_left(
                    self.register_file.get(reg).unwrap(),
                    self.register_file.get_carry_flag(),
                );
                self.set_cb_reg(reg, res, flags);
            },
            CBPrefixOpCode::RL_HL => {
                self.address_bus = self.register_file.get_hl();
                self.read_ram(ram);
                self.tick_clock();
                let (res, flags) = ALU::rotate_left(
                    self.data_bus,
                    self.register_file.get_carry_flag(),
                );
                self.data_bus = res;
                self.write_ram(ram);
                proof {
                    crate::alu::lemma_flags_f0(flags);
                }
                self.register_file.set_f(flags);
                self.tick_clock();
            },
            CBPrefixOpCode::RR_r => {
                let reg = cb_ir & 0x07;
                let (res, flags) = ALU::rotate_right(
                    self.register_file.get(reg).unwrap(),
                    self.register_file.get_carry_flag(),
                );
                self.set_cb_reg(reg, res, flags);
            },
            CBPrefixOpCode::RR_HL => {
                self.address_bus = self.register_file.get_hl();
                self.read_ram(ram);
                self.tick_clock();
                let (res, flags) = ALU::rotate_right(
                    self.data_bus,
                    self.register_file.get_carry_flag(),
                );
                self.data_bus = res;
                self.write_ram(ram);
                proof {
                    crate::alu::lemma_flags_f0(flags);
                }
                self.register_file.set_f(flags);
                self.tick_clock();
            },
            CBPrefixOpCode::SLA_r => {
                let reg = cb_ir & 0x07;
                let (res, flags) = ALU::shift_left_arithmetic(self.register_file.get(reg).unwrap());
                self.set_cb_reg(reg, res, flags);
            },
            CBPrefixOpCode::SLA_HL => {
                self.address_bus = self.register_file.get_hl();
                self.read_ram(ram);
                self.tick_clock();
                let (res, flags) = ALU::shift_left_arithmetic(self.data_bus);
                self.data_bus = res;
                self.write_ram(ram);
                proof {
                    crate::alu::lemma_flags_f0(flags);
                }
                self.register_file.set_f(flags);
                self.tick_clock();
            },
            CBPrefixOpCode::SRA_r => {
                let reg = cb_ir & 0x07;
                let (res, flags) = ALU::shift_right_arithmetic(
                    self.register_file.get(reg).unwrap(),
                );
                self.set_cb_reg(reg, res, flags);
            },
            CBPrefixOpCode::SRA_HL => {
                self.address_bus = self.register_file.get_hl();
                self.read_ram(ram);
                self.tick_clock();
                let (res, flags) = ALU::shift_right_arithmetic(self.data_bus);
                self.data_bus = res;
                self.write_ram(ram);
                proof {
                    crate::alu::lemma_flags_f0(flags);
                }
                self.register_file.set_f(flags);
                self.tick_clock();
            },
            CBPrefixOpCode::SWAP_r => {
                let reg = cb_ir & 0x07;
                let (res, flags) = ALU::swap_nibbles(self.register_file.get(reg).unwrap());
                self.set_cb_reg(reg, res, flags);
            },
            CBPrefixOpCode::SWAP_HL => {
                self.address_bus = self.register_file.get_hl();
                self.read_ram(ram);
                self.tick_clock();
                let (res, flags) = ALU::swap_nibbles(self.data_bus);
                proof {
                    crate::alu::lemma_flags_f0(flags);
                }
                self.register_file.set_f(flags);
                self.data_bus = res;
                self.write_ram(ram);
                self.tick_clock();
            },
            CBPrefixOpCode::SRL_r => {
                let reg = cb_ir & 0x07;
                let (res, flags) = ALU::shift_right_logical(self.register_file.get(reg).unwrap());
                self.set_cb_reg(reg, res, flags);
            },
            CBPrefixOpCode::SRL_HL => {
                self.address_bus = self.register_file.get_hl();
                self.read_ram(ram);
                self.tick_clock();
                let (res, flags) = ALU::shift_right_logical(self.data_bus);
                self.data_bus = res;
                self.write_ram(ram);
                proof {
                    crate::alu::lemma_flags_f0(flags);
                }
                self.register_file.set_f(flags);
                self.tick_clock();
            },
            CBPrefixOpCode::BIT_b_r => {
                let reg = cb_ir & 0x07;
                let bit = (cb_ir & 0x38) >> 3;
                let flags = ALU::test_bit(self.register_file.get(reg).unwrap(), bit);
                let carry = self.register_file.get_f() & 0x10;
                self.register_file.set_f((flags & 0xE0) | carry);
            },
            CBPrefixOpCode::BIT_b_HL => {
                self.address_bus = self.register_file.get_hl();
                self.read_ram(ram);
                self.tick_clock();
                let bit = (cb_ir & 0x38) >> 3;
                let flags = ALU::test_bit(self.data_bus, bit);
                let carry = self.register_file.get_f() & 0x10;
                self.register_file.set_f((flags & 0xE0) | carry);
            },
            CBPrefixOpCode::SET_b_r => {
                let reg = cb_ir & 0x07;
                let bit = (cb_ir & 0x38) >> 3;
                let res = ALU::set_bit(self.register_file.get(reg).unwrap(), bit);
                let set_res = self.register_file.set(reg, res);
                proof {
                    assert(set_res is Ok);
                }
            },
            CBPrefixOpCode::SET_b_HL => {
                self.address_bus = self.register_file.get_hl();
                self.read_ram(ram);
                self.tick_clock();
                let bit = (cb_ir & 0x38) >> 3;
                let res = ALU::set_bit(self.data_bus, bit);
                self.data_bus = res;
                self.write_ram(ram);
                self.tick_clock();
            },
            CBPrefixOpCode::RES_b_r => {
                let reg = cb_ir & 0x07;
                let bit = (cb_ir & 0x38) >> 3;
                let res = ALU::reset_bit(self.register_file.get(reg).unwrap(), bit);
                let set_res = self.register_file.set(reg, res);
                proof {
                    assert(set_res is Ok);
                }
            },
            CBPrefixOpCode::RES_b_HL => {
                self.address_bus = self.register_file.get_hl();
                self.read_ram(ram);
                self.tick_clock();
                let bit = (cb_ir & 0x38) >> 3;
                let res = ALU::reset_bit(self.data_bus, bit);
                self.data_bus = res;
                self.write_ram(ram);
                self.tick_clock();
            },
        }
        self.fetch_cycle(ram);
        proof {
            assert(exec_state(self, ram) =~= spec_op(
                exec_state(old(self), old(ram)),
                OpCode::CB_PREFIX,
            ));
        }
    }

    /// Stores a CB rotate/shift result into its register operand and F.
    fn set_cb_reg(&mut self, reg: u8, res: u8, flags: u8)
        requires
            crate::registers::spec_r8_writable(reg),
            flags & 0x0F == 0,
        ensures
            final(self).regs() == (RegisterModel {
                f: flags,
                ..spec_set_r8(old(self).regs(), reg, res)
            }),
            final(self).wf(),
            final(self).abus() == old(self).abus(),
            final(self).dbus() == old(self).dbus(),
            final(self).ime_on() == old(self).ime_on(),
            final(self).ei_pending() == old(self).ei_pending(),
            final(self).cycles() == old(self).cycles(),
    {
        let set_res = self.register_file.set(reg, res);
        proof {
            assert(set_res is Ok);
            crate::alu::lemma_flags_f0(flags);
        }
        self.register_file.set_f(flags);
    }

    /// Executes exactly one instruction: the opcode already held in IR runs
    /// as its micro-sequence, and its final cycle fetches the next opcode
    /// into IR with PC advanced past it. A pending EI commits to IME first.
    /// An unrecognized opcode is fatal: nothing is executed and the error
    /// carries the opcode byte, PC and the full register snapshot. The cycle
    /// counter grows by 1 to 6 cycles, and by 2 to 4 for a CB-prefixed
    /// opcode; the low nibble of F is zero afterwards.
    pub fn next(&mut self, ram: &mut RAM) -> (r: Result<(), StepError>)
        requires
            old(self).wf(),
            old(ram).wf(),
            old(self).cycles() + 6 <= u128::MAX,
        ensures
            final(self).wf(),
            final(ram).wf(),
            final(self).regs().f & 0x0F == 0,
            r is Ok <==> spec_decode_base(old(self).regs().ir) is Some,
            r matches Err(e) ==> e.opcode == old(self).regs().ir && e.pc == old(self).regs().pc
                && e.registers == old(self).spec_snapshot() && exec_state(final(self), final(ram))
                == exec_state(old(self), old(ram)),
            r is Ok ==> exec_state(final(self), final(ram)) == spec_step(
                exec_state(old(self), old(ram)),
            ),
            r is Ok ==> old(self).cycles() + 1 <= final(self).cycles() <= old(self).cycles() + 6,
            r is Ok && old(self).regs().ir == 0xCB ==> old(self).cycles() + 2
                <= final(self).cycles() <= old(self).cycles() + 4,
    {
        let ir = self.register_file.get_ir();
        let op_code = OpCode::from_ir(ir);
        let op = match op_code {
            None => {
                return Err(
                    StepError {
                        opcode: ir,
                        pc: self.register_file.get_pc(),
                        registers: self.to_snapshot(),
                    },
                );
            },
            Some(op) => op,
        };
        if self.pending_ei {
            self.ime = true;
            self.pending_ei = false;
        }
        match op {
            OpCode::LD_r_r | OpCode::LD_r_n | OpCode::LD_r_HL | OpCode::LD_HL_r | OpCode::LD_HL_n
                | OpCode::LD_A_BC | OpCode::LD_A_DE | OpCode::LD_BC_A | OpCode::LD_DE_A
                | OpCode::LD_A_nn | OpCode::LD_nn_A | OpCode::LDH_A_C | OpCode::LDH_C_A
                | OpCode::LDH_A_n | OpCode::LDH_n_A | OpCode::LD_A_HLm | OpCode::LD_HLm_A
                | OpCode::LD_A_HLp | OpCode::LD_HLp_A => self.exec_load8(ram, op, ir),
            OpCode::LD_rr_nn | OpCode::LD_nn_SP | OpCode::LD_SP_HL | OpCode::PUSH_rr
                | OpCode::POP_rr | OpCode::LD_HL_SPe => self.exec_load16(ram, op, ir),
            OpCode::CB_PREFIX => self.exec_cb(ram),
            OpCode::JP_NN | OpCode::JP_HL | OpCode::JP_CC_NN | OpCode::JR_E | OpCode::JR_CC_E
                | OpCode::CALL_NN | OpCode::CALL_CC_NN | OpCode::RET | OpCode::RET_CC
                | OpCode::RETI | OpCode::RST_N | OpCode::DI | OpCode::EI | OpCode::HALT
                | OpCode::STOP => self.exec_control(ram, op, ir),
            _ => self.exec_alu(ram, op, ir),
        }
        self.tick_clock();
        Ok(())
    }

    /// The cycle counter's current value.
    pub fn get_cycle_count(&self) -> (r: u128)
        ensures
            r == self.cycles(),
    {
        self.cycle_count
    }

    pub fn get_data_bus(&self) -> (r: u8)
        ensures
            r == self.dbus(),
    {
        self.data_bus
    }

    pub fn get_address_bus(&self) -> (r: u16)
        ensures
            r == self.abus(),
    {
        self.address_bus
    }

    /// Reads any register by name, widened to 16 bits.
    pub fn get_register(&self, register: RegisterName) -> (r: u16)
        ensures
            r == spec_register_value(self.regs(), register),
    {
        match register {
            RegisterName::IR => self.register_file.get_ir() as u16,
            RegisterName::IE => self.register_file.get_ie() as u16,
            RegisterName::AF => self.register_file.get_af(),
            RegisterName::A => self.register_file.get_a() as u16,
            RegisterName::F => self.register_file.get_f() as u16,
            RegisterName::BC => self.register_file.get_bc(),
            RegisterName::B => self.register_file.get_b() as u16,
            RegisterName::C => self.register_file.get_c() as u16,
            RegisterName::DE => self.register_file.get_de(),
            RegisterName::D => self.register_file.get_d() as u16,
            RegisterName::E => self.register_file.get_e() as u16,
            RegisterName::HL => self.register_file.get_hl(),
            RegisterName::H => self.register_file.get_h() as u16,
            RegisterName::L => self.register_file.get_l() as u16,
            RegisterName::PC => self.register_file.get_pc(),
            RegisterName::SP => self.register_file.get_sp(),
        }
    }
}

/// The carry flag of a flag byte, as the 0-or-1 carry-in that the ALU takes.
pub open spec fn spec_carry_bit(f: u8) -> u8 {
    if f & 0x10 != 0 {
        1u8
    } else {
        0u8
    }
}

/// The accumulator and flags after an 8-bit add, with the carry flag as
/// carry-in when `carry` is set.
pub open spec fn spec_alu_add(m: RegisterModel, val: u8, carry: bool) -> RegisterModel {
    let cin = if carry {
        spec_carry_bit(m.f)
    } else {
        0u8
    };
    RegisterModel { a: spec_add3_result(m.a, val, cin), f: spec_add3_flags(m.a, val, cin), ..m }
}

/// The flags after an 8-bit compare (the accumulator is unchanged).
pub open spec fn spec_alu_cp(m: RegisterModel, val: u8, carry: bool) -> RegisterModel {
    let cin = if carry {
        spec_carry_bit(m.f)
    } else {
        0u8
    };
    RegisterModel { f: spec_sub3_flags(m.a, val, cin), ..m }
}

/// The accumulator and flags after an 8-bit subtract, with the carry flag as
/// borrow-in when `carry` is set.
pub open spec fn spec_alu_sub(m: RegisterModel, val: u8, carry: bool) -> RegisterModel {
    let cin = if carry {
        spec_carry_bit(m.f)
    } else {
        0u8
    };
    RegisterModel { a: spec_sub3_result(m.a, val, cin), f: spec_sub3_flags(m.a, val, cin), ..m }
}

/// The accumulator and flags after a bitwise AND into A.
pub open spec fn spec_alu_and(m: RegisterModel, val: u8) -> RegisterModel {
    RegisterModel { a: m.a & val, f: spec_flags(m.a & val == 0, false, true, false), ..m }
}

/// The accumulator and flags after a bitwise OR into A.
pub open spec fn spec_alu_or(m: RegisterModel, val: u8) -> RegisterModel {
    RegisterModel { a: m.a | val, f: spec_flags(m.a | val == 0, false, false, false), ..m }
}

/// The accumulator and flags after a bitwise XOR into A.
pub open spec fn spec_alu_xor(m: RegisterModel, val: u8) -> RegisterModel {
    RegisterModel { a: m.a ^ val, f: spec_flags((m.a ^ val) == 0, false, false, false), ..m }
}

/// Whether a 2-bit condition code holds of a flag byte: NZ=0, Z=1, NC=2, C=3.
pub open spec fn spec_condition(f: u8, code: u8) -> bool {
    if code == 0 {
        f & 0x80 == 0
    } else if code == 1 {
        f & 0x80 != 0
    } else if code == 2 {
        f & 0x10 == 0
    } else if code == 3 {
        f & 0x10 != 0
    } else {
        false
    }
}

/// The whole machine state that one instruction transforms: the register
/// file, the two buses, the interrupt enables, the cycle counter, and the
/// memory with its DMA flag.
#[verifier::ext_equal]
pub struct Exec {
    pub m: RegisterModel,
    pub ab: u16,
    pub db: u8,
    pub ime: bool,
    pub pei: bool,
    pub cyc: int,
    pub mem: Seq<u8>,
    pub dma: bool,
}

/// The machine state that a CPU and a memory hold.
pub open spec fn exec_state(cpu: &SM83, ram: &RAM) -> Exec {
    Exec {
        m: cpu.regs(),
        ab: cpu.abus(),
        db: cpu.dbus(),
        ime: cpu.ime_on(),
        pei: cpu.ei_pending(),
        cyc: cpu.cycles() as int,
        mem: ram@,
        dma: ram.spec_dma_requested(),
    }
}

impl Exec {
    /// One M-cycle.
    pub open spec fn tick(self) -> Exec {
        Exec { cyc: self.cyc + 1, ..self }
    }

    /// A read: the byte at the address bus appears on the data bus.
    pub open spec fn read_ram(self) -> Exec {
        Exec { db: self.mem[self.ab as int], ..self }
    }

    /// A write: the data bus is stored at the address bus unless the write
    /// is refused; the DMA flag follows the write.
    pub open spec fn write_ram(self) -> Exec {
        Exec {
            mem: spec_mem_after_write(self.mem, self.ab, self.db),
            dma: spec_dma_after_write(self.mem, self.dma, self.ab),
            ..self
        }
    }

    pub open spec fn set_ab(self, a: u16) -> Exec {
        Exec { ab: a, ..self }
    }

    pub open spec fn set_db(self, v: u8) -> Exec {
        Exec { db: v, ..self }
    }

    pub open spec fn with_regs(self, m: RegisterModel) -> Exec {
        Exec { m, ..self }
    }

    /// PC advances by one through the IDU; the address bus holds the new PC.
    pub open spec fn inc_pc(self) -> Exec {
        Exec {
            m: RegisterModel { pc: spec_idu_increment(self.m.pc), ..self.m },
            ab: spec_idu_increment(self.m.pc),
            ..self
        }
    }

    /// A fetch: IR takes the byte at PC, PC advances, and the buses hold
    /// the new PC and the fetched byte.
    pub open spec fn fetch(self) -> Exec {
        Exec {
            m: RegisterModel {
                ir: self.mem[self.m.pc as int],
                pc: spec_idu_increment(self.m.pc),
                ..self.m
            },
            ab: spec_idu_increment(self.m.pc),
            db: self.mem[self.m.pc as int],
            ..self
        }
    }

    /// SP moves down one through the IDU; the address bus holds the new SP.
    pub open spec fn push_stack(self) -> Exec {
        Exec {
            m: RegisterModel { sp: spec_idu_decrement(self.m.sp), ..self.m },
            ab: spec_idu_decrement(self.m.sp),
            ..self
        }
    }

    /// SP moves up one through the IDU; the address bus holds the new SP.
    pub open spec fn pop_stack(self) -> Exec {
        Exec {
            m: RegisterModel { sp: spec_idu_increment(self.m.sp), ..self.m },
            ab: spec_idu_increment(self.m.sp),
            ..self
        }
    }

    /// Two immediate bytes read little-endian at the address bus, advancing
    /// PC past them; returns the state after both reads and the 16-bit value.
    pub open spec fn read16(self) -> (Exec, u16) {
        let s1 = self.read_ram();
        let lo = s1.db;
        let s2 = s1.inc_pc().tick().read_ram();
        let hi = s2.db;
        let s3 = s2.inc_pc().tick();
        (s3, (hi * 0x100 + lo) as u16)
    }
}

/// The opcodes that `exec_load8` runs: the 8-bit loads.
pub open spec fn spec_is_load8(op: OpCode) -> bool {
    op == OpCode::LD_r_r || op == OpCode::LD_r_n || op == OpCode::LD_r_HL || op == OpCode::LD_HL_r
        || op == OpCode::LD_HL_n || op == OpCode::LD_A_BC || op == OpCode::LD_A_DE || op
        == OpCode::LD_BC_A || op == OpCode::LD_DE_A || op == OpCode::LD_A_nn || op
        == OpCode::LD_nn_A || op == OpCode::LDH_A_C || op == OpCode::LDH_C_A || op
        == OpCode::LDH_A_n || op == OpCode::LDH_n_A || op == OpCode::LD_A_HLm || op
        == OpCode::LD_HLm_A || op == OpCode::LD_A_HLp || op == OpCode::LD_HLp_A
}

/// The opcodes that `exec_load16` runs: the 16-bit loads and stack moves.
pub open spec fn spec_is_load16(op: OpCode) -> bool {
    op == OpCode::LD_rr_nn || op == OpCode::LD_nn_SP || op == OpCode::LD_SP_HL || op
        == OpCode::PUSH_rr || op == OpCode::POP_rr || op == OpCode::LD_HL_SPe
}

/// The 8-bit operations on the accumulator and one operand byte.
pub open spec fn spec_is_alu8(op: OpCode) -> bool {
    op == OpCode::ADD_r || op == OpCode::ADC_r || op == OpCode::SUB_r || op == OpCode::SBC_r || op
        == OpCode::CP_r || op == OpCode::AND_r || op == OpCode::OR_r || op == OpCode::XOR_r || op
        == OpCode::ADD_HL || op == OpCode::ADC_HL || op == OpCode::SUB_HL || op == OpCode::SBC_HL
        || op == OpCode::CP_HL || op == OpCode::AND_HL || op == OpCode::OR_HL || op
        == OpCode::XOR_HL || op == OpCode::ADD_n || op == OpCode::ADC_n || op == OpCode::SUB_n || op
        == OpCode::SBC_n || op == OpCode::CP_n || op == OpCode::AND_n || op == OpCode::OR_n || op
        == OpCode::XOR_n
}

/// The opcodes that `exec_alu` runs: the arithmetic, logical, flag and
/// accumulator-rotate instructions, and NOP.
pub open spec fn spec_is_alu(op: OpCode) -> bool {
    spec_is_alu8(op) || op == OpCode::INC_r || op == OpCode::DEC_r || op == OpCode::INC_HL || op
        == OpCode::DEC_HL || op == OpCode::CCF || op == OpCode::SCF || op == OpCode::DAA || op
        == OpCode::CPL || op == OpCode::INC_rr || op == OpCode::DEC_rr || op == OpCode::ADD_HL_rr
        || op == OpCode::ADD_SP_e || op == OpCode::NOP || op == OpCode::RLCA || op == OpCode::RLA
        || op == OpCode::RRCA || op == OpCode::RRA
}

/// The opcodes that `exec_control` runs: jumps, calls, returns, restarts,
/// the interrupt toggles, HALT and STOP.
pub open spec fn spec_is_control(op: OpCode) -> bool {
    op == OpCode::JP_NN || op == OpCode::JP_HL || op == OpCode::JP_CC_NN || op == OpCode::JR_E || op
        == OpCode::JR_CC_E || op == OpCode::CALL_NN || op == OpCode::CALL_CC_NN || op == OpCode::RET
        || op == OpCode::RET_CC || op == OpCode::RETI || op == OpCode::RST_N || op == OpCode::DI
        || op == OpCode::EI || op == OpCode::HALT || op == OpCode::STOP
}

/// The flag byte after an operation that derives Z, N and H but leaves the
/// carry to the caller: the derived bits joined with the old carry bit,
/// with the write to F masking the low nibble as always.
pub open spec fn spec_flags_with_old_carry(f: u8, g: u8) -> u8 {
    (g | (f & 0x10)) & 0xF0
}

/// The result and flags of INC: an add of one that leaves C to the caller.
pub open spec fn spec_inc_pair(v: u8) -> (u8, u8) {
    (spec_add3_result(v, 1, 0), spec_add3_flags(v, 1, 0) & 0xE0)
}

/// The result and flags of DEC: a subtract of one that leaves C to the
/// caller.
pub open spec fn spec_dec_pair(v: u8) -> (u8, u8) {
    (spec_sub3_result(v, 1, 0), spec_sub3_flags(v, 1, 0) & 0xE0)
}

/// Which ALU operation an arithmetic/logical opcode applies to the
/// accumulator and an operand byte.
pub open spec fn spec_alu_apply(op: OpCode, m: RegisterModel, val: u8) -> RegisterModel {
    match op {
        OpCode::ADD_r | OpCode::ADD_HL | OpCode::ADD_n => spec_alu_add(m, val, false),
        OpCode::ADC_r | OpCode::ADC_HL | OpCode::ADC_n => spec_alu_add(m, val, true),
        OpCode::SUB_r | OpCode::SUB_HL | OpCode::SUB_n => spec_alu_sub(m, val, false),
        OpCode::SBC_r | OpCode::SBC_HL | OpCode::SBC_n => spec_alu_sub(m, val, true),
        OpCode::CP_r | OpCode::CP_HL | OpCode::CP_n => spec_alu_cp(m, val, false),
        OpCode::AND_r | OpCode::AND_HL | OpCode::AND_n => spec_alu_and(m, val),
        OpCode::OR_r | OpCode::OR_HL | OpCode::OR_n => spec_alu_or(m, val),
        OpCode::XOR_r | OpCode::XOR_HL | OpCode::XOR_n => spec_alu_xor(m, val),
        _ => m,
    }
}

/// A load from memory into A: read at the address, tick, store to A, fetch.
pub open spec fn spec_ld_a_mem(s: Exec, addr: u16) -> Exec {
    let s1 = s.set_ab(addr).read_ram().tick();
    s1.with_regs(RegisterModel { a: s1.db, ..s1.m }).fetch()
}

/// A store of A into memory: write at the address, tick, fetch.
pub open spec fn spec_ld_mem_a(s: Exec, addr: u16) -> Exec {
    s.set_ab(addr).set_db(s.m.a).write_ram().tick().fetch()
}

/// LD A,(HL-) / LD A,(HL+): read at HL, post-modify HL through the IDU.
pub open spec fn spec_ld_a_hl_adj(s: Exec, dec: bool) -> Exec {
    let s1 = s.set_ab(s.m.hl()).read_ram();
    let nv = if dec {
        spec_idu_decrement(s1.ab)
    } else {
        spec_idu_increment(s1.ab)
    };
    let s2 = Exec {
        ab: nv,
        m: RegisterModel { h: (nv / 0x100) as u8, l: (nv % 0x100) as u8, ..s1.m },
        ..s1
    }.tick();
    s2.with_regs(RegisterModel { a: s2.db, ..s2.m }).fetch()
}

/// LD (HL-),A / LD (HL+),A: write A at HL, post-modify HL through the IDU.
pub open spec fn spec_ld_hl_adj_a(s: Exec, dec: bool) -> Exec {
    let s1 = s.set_ab(s.m.hl()).set_db(s.m.a).write_ram();
    let nv = if dec {
        spec_idu_decrement(s1.ab)
    } else {
        spec_idu_increment(s1.ab)
    };
    Exec {
        ab: nv,
        m: RegisterModel { h: (nv / 0x100) as u8, l: (nv % 0x100) as u8, ..s1.m },
        ..s1
    }.tick().fetch()
}

/// PUSH: one internal cycle moving SP down, then the high and low bytes of
/// the value stored at the two stack slots.
pub open spec fn spec_push(s: Exec, v: u16) -> Exec {
    let s1 = s.push_stack().tick();
    let s2 = s1.set_db((v / 0x100) as u8).write_ram().push_stack().tick();
    s2.set_db((v % 0x100) as u8).write_ram().tick().fetch()
}

/// CALL's taken path and RST: the current PC pushed high byte first, then
/// the jump to the target.
pub open spec fn spec_call(s: Exec, target: u16) -> Exec {
    let s1 = s.push_stack().tick();
    let s2 = s1.set_db((s1.m.pc / 0x100) as u8).write_ram().push_stack().tick();
    let s3 = s2.set_db((s2.m.pc % 0x100) as u8).write_ram();
    s3.with_regs(RegisterModel { pc: target, ..s3.m }).tick().fetch()
}

/// RET's taken path: the return address popped low byte first into PC, with
/// one internal cycle for the jump; the caller appends the fetch.
pub open spec fn spec_ret(s: Exec) -> Exec {
    let s1 = s.set_ab(s.m.sp).read_ram();
    let lo = s1.db;
    let s2 = s1.pop_stack().tick().read_ram();
    let hi = s2.db;
    let s3 = s2.pop_stack().tick();
    s3.with_regs(RegisterModel { pc: (hi * 0x100 + lo) as u16, ..s3.m }).tick()
}

/// The four one-cycle accumulator rotates: Z is forced to zero, only C is
/// derived.
pub open spec fn spec_rot_a(s: Exec, pair: (u8, u8)) -> Exec {
    s.with_regs(RegisterModel { a: pair.0, f: pair.1 & 0x10, ..s.m }).fetch()
}

/// LD HL,SP+e: the low byte of HL takes P plus the offset with flags from
/// that 8-bit add (Z cleared), the high byte takes S adjusted by the sign
/// and the carry.
pub open spec fn spec_ld_hl_spe(s: Exec) -> Exec {
    let s1 = s.read_ram();
    let e = s1.db;
    let s2 = s1.inc_pc().tick();
    let sum = spec_add3_result(s2.m.p(), e, 0);
    let fl = spec_add3_flags(s2.m.p(), e, 0);
    let s3 = s2.with_regs(RegisterModel { f: fl & 0x30, l: sum, ..s2.m }).tick();
    let adj: u8 = if e & 0x80 != 0 {
        0xFF
    } else {
        0x00
    };
    let hi = spec_add3_result(s3.m.s(), adj, spec_carry_bit(s3.m.f));
    s3.with_regs(RegisterModel { h: hi, ..s3.m }).fetch()
}

/// ADD SP,e: as LD HL,SP+e but into SP itself, with two internal cycles.
pub open spec fn spec_add_sp_e(s: Exec) -> Exec {
    let s1 = s.read_ram();
    let e = s1.db;
    let s2 = s1.inc_pc().tick();
    let sum = spec_add3_result(s2.m.p(), e, 0);
    let fl0 = spec_add3_flags(s2.m.p(), e, 0);
    let fl = if sum == 0 {
        fl0 | 0x80
    } else {
        fl0
    };
    let s3 = s2.with_regs(
        RegisterModel { f: fl & 0x30, sp: (0x100 * (s2.m.sp / 0x100) + sum) as u16, ..s2.m },
    ).tick();
    let adj: u8 = if e & 0x80 != 0 {
        0xFF
    } else {
        0x00
    };
    let hi = spec_add3_result(s3.m.s(), adj, spec_carry_bit(s3.m.f));
    s3.with_regs(RegisterModel { sp: (0x100 * hi + s3.m.sp % 0x100) as u16, ..s3.m }).tick().fetch()
}

/// ADD HL,rr: the low bytes added first, then the high bytes with the
/// carry between them; Z is preserved, N cleared, H and C from the
/// high-byte addition.
pub open spec fn spec_add_hl_rr(s: Exec, reg: u8) -> Exec {
    let v1 = spec_get_dd(s.m, reg);
    let lsb = (v1 % 0x100) as u8;
    let msb = (v1 / 0x100) as u8;
    let lo = spec_add3_result(lsb, s.m.l, 0);
    let fl = spec_add3_flags(lsb, s.m.l, 0);
    let s1 = s.with_regs(RegisterModel { l: lo, ..s.m }).tick();
    let cin = (fl & 0x10) >> 4;
    let hi = spec_add3_result(msb, s1.m.h, cin);
    let fl2 = spec_add3_flags(msb, s1.m.h, cin);
    s1.with_regs(RegisterModel { h: hi, f: (s1.m.f & 0x80) | (fl2 & 0x7F), ..s1.m }).fetch()
}

/// A CB rotate/shift on a register operand: the register takes the result
/// and F the derived flags.
pub open spec fn spec_cb_reg(s: Exec, cb: u8, pair: (u8, u8)) -> Exec {
    let m1 = crate::registers::spec_set_r8(s.m, cb & 0x07, pair.0);
    s.with_regs(RegisterModel { f: pair.1, ..m1 })
}

/// A CB rotate/shift on the memory operand at HL: read, modify, write.
pub open spec fn spec_cb_hl(s: Exec, after: Exec, pair: (u8, u8)) -> Exec {
    after.set_db(pair.0).write_ram().with_regs(RegisterModel { f: pair.1, ..after.m }).tick()
}

/// One CB-prefixed operation, after the CB page byte has been fetched into
/// IR: bits 6..7 pick the family, bits 3..5 the sub-operation or bit index,
/// bits 0..2 the operand.
pub open spec fn spec_cb_op(s: Exec, c: CBPrefixOpCode) -> Exec {
    let cb = s.m.ir;
    let bit = (cb & 0x38) >> 3;
    match c {
        CBPrefixOpCode::RLC_r => spec_cb_reg(s, cb, crate::alu::spec_rlc(spec_get_r8(s.m, cb & 0x07))),
        CBPrefixOpCode::RRC_r => spec_cb_reg(s, cb, crate::alu::spec_rrc(spec_get_r8(s.m, cb & 0x07))),
        CBPrefixOpCode::RL_r => spec_cb_reg(
            s,
            cb,
            crate::alu::spec_rl(spec_get_r8(s.m, cb & 0x07), spec_carry_bit(s.m.f)),
        ),
        CBPrefixOpCode::RR_r => spec_cb_reg(
            s,
            cb,
            crate::alu::spec_rr(spec_get_r8(s.m, cb & 0x07), spec_carry_bit(s.m.f)),
        ),
        CBPrefixOpCode::SLA_r => spec_cb_reg(s, cb, crate::alu::spec_sla(spec_get_r8(s.m, cb & 0x07))),
        CBPrefixOpCode::SRA_r => spec_cb_reg(s, cb, crate::alu::spec_sra(spec_get_r8(s.m, cb & 0x07))),
        CBPrefixOpCode::SWAP_r => spec_cb_reg(
            s,
            cb,
            crate::alu::spec_swap_pair(spec_get_r8(s.m, cb & 0x07)),
        ),
        CBPrefixOpCode::SRL_r => spec_cb_reg(s, cb, crate::alu::spec_srl(spec_get_r8(s.m, cb & 0x07))),
        CBPrefixOpCode::RLC_HL => {
            let s1 = s.set_ab(s.m.hl()).read_ram().tick();
            spec_cb_hl(s, s1, crate::alu::spec_rlc(s1.db))
        },
        CBPrefixOpCode::RRC_HL => {
            let s1 = s.set_ab(s.m.hl()).read_ram().tick();
            spec_cb_hl(s, s1, crate::alu::spec_rrc(s1.db))
        },
        CBPrefixOpCode::RL_HL => {
            let s1 = s.set_ab(s.m.hl()).read_ram().tick();
            spec_cb_hl(s, s1, crate::alu::spec_rl(s1.db, spec_carry_bit(s1.m.f)))
        },
        CBPrefixOpCode::RR_HL => {
            let s1 = s.set_ab(s.m.hl()).read_ram().tick();
            spec_cb_hl(s, s1, crate::alu::spec_rr(s1.db, spec_carry_bit(s1.m.f)))
        },
        CBPrefixOpCode::SLA_HL => {
            let s1 = s.set_ab(s.m.hl()).read_ram().tick();
            spec_cb_hl(s, s1, crate::alu::spec_sla(s1.db))
        },
        CBPrefixOpCode::SRA_HL => {
            let s1 = s.set_ab(s.m.hl()).read_ram().tick();
            spec_cb_hl(s, s1, crate::alu::spec_sra(s1.db))
        },
        CBPrefixOpCode::SWAP_HL => {
            let s1 = s.set_ab(s.m.hl()).read_ram().tick();
            spec_cb_hl(s, s1, crate::alu::spec_swap_pair(s1.db))
        },
        CBPrefixOpCode::SRL_HL => {
            let s1 = s.set_ab(s.m.hl()).read_ram().tick();
            spec_cb_hl(s, s1, crate::alu::spec_srl(s1.db))
        },
        CBPrefixOpCode::BIT_b_r => {
            let fl = crate::alu::spec_test_bit(spec_get_r8(s.m, cb & 0x07), bit);
            s.with_regs(RegisterModel { f: spec_flags_with_old_carry(s.m.f, fl & 0xE0), ..s.m })
        },
        CBPrefixOpCode::BIT_b_HL => {
            let s1 = s.set_ab(s.m.hl()).read_ram().tick();
            let fl = crate::alu::spec_test_bit(s1.db, bit);
            s1.with_regs(RegisterModel { f: spec_flags_with_old_carry(s1.m.f, fl & 0xE0), ..s1.m })
        },
        CBPrefixOpCode::SET_b_r => s.with_regs(
            spec_set_r8(s.m, cb & 0x07, spec_get_r8(s.m, cb & 0x07) | (1u8 << bit)),
        ),
        CBPrefixOpCode::RES_b_r => s.with_regs(
            spec_set_r8(s.m, cb & 0x07, spec_get_r8(s.m, cb & 0x07) & !(1u8 << bit)),
        ),
        CBPrefixOpCode::SET_b_HL => {
            let s1 = s.set_ab(s.m.hl()).read_ram().tick();
            s1.set_db(s1.db | (1u8 << bit)).write_ram().tick()
        },
        CBPrefixOpCode::RES_b_HL => {
            let s1 = s.set_ab(s.m.hl()).read_ram().tick();
            s1.set_db(s1.db & !(1u8 << bit)).write_ram().tick()
        },
    }
}

/// The CB prefix: a second fetch brings the CB page byte into IR, then the
/// selected operation runs; the final fetch is appended by the caller.
pub open spec fn spec_cb(s: Exec) -> Exec {
    let s1 = s.fetch().tick();
    match crate::opcodes::spec_decode_cb(s1.m.ir) {
        Some(c) => spec_cb_op(s1, c).fetch(),
        None => s1.fetch(),
    }
}

/// What one base opcode does to the machine state, excluding the final tick
/// that every instruction shares.
pub open spec fn spec_op(s: Exec, op: OpCode) -> Exec {
    let ir = s.m.ir;
    match op {
        OpCode::NOP => s.fetch(),
        OpCode::STOP => s.fetch(),
        OpCode::LD_HL_n => {
            let s1 = s.read_ram().inc_pc().tick();
            s1.set_ab(s1.m.hl()).write_ram().tick().fetch()
        },
        OpCode::LD_A_BC => spec_ld_a_mem(s, s.m.bc()),
        OpCode::LD_A_DE => spec_ld_a_mem(s, s.m.de()),
        OpCode::LD_BC_A => spec_ld_mem_a(s, s.m.bc()),
        OpCode::LD_DE_A => spec_ld_mem_a(s, s.m.de()),
        OpCode::LD_A_nn => {
            let p = s.read16();
            spec_ld_a_mem(p.0, p.1)
        },
        OpCode::LD_nn_A => {
            let p = s.read16();
            spec_ld_mem_a(p.0, p.1)
        },
        OpCode::LDH_A_C => spec_ld_a_mem(s, 0xFF00u16 | (s.m.c as u16)),
        OpCode::LDH_C_A => spec_ld_mem_a(s, 0xFF00u16 | (s.m.c as u16)),
        OpCode::LDH_A_n => {
            let s1 = s.read_ram().inc_pc().tick();
            spec_ld_a_mem(s1, 0xFF00u16 | (s1.db as u16))
        },
        OpCode::LDH_n_A => {
            let s1 = s.read_ram().inc_pc().tick();
            spec_ld_mem_a(s1, 0xFF00u16 | (s1.db as u16))
        },
        OpCode::LD_A_HLm => spec_ld_a_hl_adj(s, true),
        OpCode::LD_A_HLp => spec_ld_a_hl_adj(s, false),
        OpCode::LD_HLm_A => spec_ld_hl_adj_a(s, true),
        OpCode::LD_HLp_A => spec_ld_hl_adj_a(s, false),
        OpCode::LD_r_n => {
            let s1 = s.read_ram().inc_pc().tick();
            s1.with_regs(spec_set_r8(s1.m, (ir >> 3) & 0x07, s1.db)).fetch()
        },
        OpCode::LD_rr_nn => {
            let p = s.read16();
            p.0.with_regs(spec_set_dd(p.0.m, (ir >> 4) & 0x03, p.1)).fetch()
        },
        OpCode::LD_nn_SP => {
            let p = s.read16();
            let s1 = p.0.set_ab(p.1).set_db(p.0.m.p()).write_ram().tick();
            let s2 = s1.set_ab(spec_idu_increment(s1.ab)).set_db(s1.m.s()).write_ram().tick();
            s2.fetch()
        },
        OpCode::LD_SP_HL => {
            let s1 = s.set_ab(s.m.hl());
            s1.with_regs(RegisterModel { sp: s1.ab, ..s1.m }).tick().fetch()
        },
        OpCode::PUSH_rr => spec_push(s, spec_get_qq(s.m, (ir & 0x30) >> 4)),
        OpCode::POP_rr => {
            let s1 = s.set_ab(s.m.sp).read_ram();
            let lo = s1.db;
            let s2 = s1.pop_stack().tick().read_ram();
            let hi = s2.db;
            let s3 = s2.pop_stack().tick();
            s3.with_regs(spec_set_qq(s3.m, (ir & 0x30) >> 4, (hi * 0x100 + lo) as u16)).fetch()
        },
        OpCode::LD_HL_SPe => spec_ld_hl_spe(s),
        OpCode::LD_r_r => s.with_regs(
            spec_set_r8(s.m, (ir >> 3) & 0x07, spec_get_r8(s.m, ir & 0x07)),
        ).fetch(),
        OpCode::LD_r_HL => {
            let s1 = s.set_ab(s.m.hl()).read_ram().tick();
            s1.with_regs(spec_set_r8(s1.m, (ir >> 3) & 0x07, s1.db)).fetch()
        },
        OpCode::LD_HL_r => s.set_ab(s.m.hl()).set_db(
            spec_get_r8(s.m, ir & 0x07),
        ).write_ram().tick().fetch(),
        OpCode::ADD_r | OpCode::ADC_r | OpCode::SUB_r | OpCode::SBC_r | OpCode::CP_r
            | OpCode::AND_r | OpCode::OR_r | OpCode::XOR_r => s.with_regs(
            spec_alu_apply(op, s.m, spec_get_r8(s.m, ir & 0x07)),
        ).fetch(),
        OpCode::ADD_HL | OpCode::ADC_HL | OpCode::SUB_HL | OpCode::SBC_HL | OpCode::CP_HL
            | OpCode::AND_HL | OpCode::OR_HL | OpCode::XOR_HL => {
            let s1 = s.set_ab(s.m.hl()).read_ram().tick();
            s1.with_regs(spec_alu_apply(op, s1.m, s1.db)).fetch()
        },
        OpCode::ADD_n | OpCode::ADC_n | OpCode::SUB_n | OpCode::SBC_n | OpCode::CP_n
            | OpCode::AND_n | OpCode::OR_n | OpCode::XOR_n => {
            let s1 = s.read_ram().inc_pc().tick();
            s1.with_regs(spec_alu_apply(op, s1.m, s1.db)).fetch()
        },
        OpCode::INC_r | OpCode::DEC_r => {
            let reg = (ir & 0x38) >> 3;
            let pair = if op == OpCode::INC_r {
                spec_inc_pair(spec_get_r8(s.m, reg))
            } else {
                spec_dec_pair(spec_get_r8(s.m, reg))
            };
            let m1 = spec_set_r8(s.m, reg, pair.0);
            s.with_regs(RegisterModel { f: spec_flags_with_old_carry(m1.f, pair.1), ..m1 }).fetch()
        },
        OpCode::INC_HL | OpCode::DEC_HL => {
            let s1 = s.set_ab(s.m.hl()).read_ram().tick();
            let pair = if op == OpCode::INC_HL {
                spec_inc_pair(s1.db)
            } else {
                spec_dec_pair(s1.db)
            };
            let s2 = s1.set_db(pair.0).with_regs(
                RegisterModel { f: spec_flags_with_old_carry(s1.m.f, pair.1 & 0xE0), ..s1.m },
            );
            s2.write_ram().tick().fetch()
        },
        OpCode::CCF => s.with_regs(
            RegisterModel { f: ((s.m.f & 0xDF) & 0xBF) ^ 0x10, ..s.m },
        ).fetch(),
        OpCode::SCF => s.with_regs(
            RegisterModel { f: ((s.m.f & 0xDF) & 0xBF) | 0x10, ..s.m },
        ).fetch(),
        OpCode::DAA => {
            let pair = spec_daa(s.m.a, s.m.f);
            s.with_regs(RegisterModel { a: pair.0, f: pair.1, ..s.m }).fetch()
        },
        OpCode::CPL => s.with_regs(
            RegisterModel { a: !s.m.a, f: (s.m.f | 0x40) | 0x20, ..s.m },
        ).fetch(),
        OpCode::INC_rr | OpCode::DEC_rr => {
            let reg = (ir & 0x30) >> 4;
            let nv = if op == OpCode::INC_rr {
                spec_idu_increment(spec_get_dd(s.m, reg))
            } else {
                spec_idu_decrement(spec_get_dd(s.m, reg))
            };
            s.set_ab(nv).with_regs(spec_set_dd(s.m, reg, nv)).tick().fetch()
        },
        OpCode::ADD_HL_rr => spec_add_hl_rr(s, (ir & 0x30) >> 4),
        OpCode::ADD_SP_e => spec_add_sp_e(s),
        OpCode::RLCA => spec_rot_a(s, crate::alu::spec_rlc(s.m.a)),
        OpCode::RLA => spec_rot_a(s, crate::alu::spec_rl(s.m.a, spec_carry_bit(s.m.f))),
        OpCode::RRCA => spec_rot_a(s, crate::alu::spec_rrc(s.m.a)),
        OpCode::RRA => spec_rot_a(s, crate::alu::spec_rr(s.m.a, spec_carry_bit(s.m.f))),
        OpCode::CB_PREFIX => spec_cb(s),
        OpCode::JP_NN => {
            let p = s.read16();
            p.0.with_regs(RegisterModel { pc: p.1, ..p.0.m }).tick().fetch()
        },
        OpCode::JP_HL => s.with_regs(RegisterModel { pc: s.m.hl(), ..s.m }).fetch(),
        OpCode::JP_CC_NN => {
            let cond = spec_condition(s.m.f, (ir >> 3) & 0x03);
            let p = s.read16();
            if cond {
                p.0.with_regs(RegisterModel { pc: p.1, ..p.0.m }).tick().fetch()
            } else {
                p.0.fetch()
            }
        },
        OpCode::JR_E => {
            let s1 = s.read_ram();
            let e = s1.db;
            let s2 = s1.inc_pc().tick();
            let npc = crate::alu::spec_add_16_signed(s2.m.pc, e);
            s2.tick().with_regs(RegisterModel { pc: npc, ..s2.m }).fetch()
        },
        OpCode::JR_CC_E => {
            let s1 = s.read_ram();
            let e = s1.db;
            let cond = spec_condition(s1.m.f, (ir >> 3) & 0x03);
            let s2 = s1.inc_pc().tick();
            if cond {
                let npc = crate::alu::spec_add_16_signed(s2.m.pc, e);
                s2.tick().with_regs(RegisterModel { pc: npc, ..s2.m }).fetch()
            } else {
                s2.fetch()
            }
        },
        OpCode::CALL_NN => {
            let p = s.read16();
            spec_call(p.0, p.1)
        },
        OpCode::CALL_CC_NN => {
            let p = s.read16();
            if spec_condition(s.m.f, (ir >> 3) & 0x03) {
                spec_call(p.0, p.1)
            } else {
                p.0.fetch()
            }
        },
        OpCode::RET => spec_ret(s).fetch(),
        OpCode::RETI => {
            let s1 = spec_ret(s);
            Exec { ime: true, ..s1 }.fetch()
        },
        OpCode::RET_CC => {
            let s1 = s.tick();
            if spec_condition(s.m.f, (ir >> 3) & 0x03) {
                spec_ret(s1).fetch()
            } else {
                s1.fetch()
            }
        },
        OpCode::RST_N => spec_call(s, (8 * ((ir >> 3) & 0x07)) as u16),
        OpCode::DI => Exec { ime: false, pei: false, ..s }.fetch(),
        OpCode::EI => Exec { pei: true, ..s }.fetch(),
        OpCode::HALT => {
            let s1 = s.fetch();
            let npc = spec_idu_decrement(s1.m.pc);
            Exec { m: RegisterModel { pc: npc, ..s1.m }, ab: npc, ..s1 }
        },
    }
}

/// A pending EI committed: IME rises at the start of the instruction after
/// the EI.
pub open spec fn spec_ei_commit(s: Exec) -> Exec {
    if s.pei {
        Exec { ime: true, pei: false, ..s }
    } else {
        s
    }
}

/// One whole instruction: any pending EI commits, the opcode in IR runs,
/// and the shared final tick pays for the cycle that its fetch overlaps.
pub open spec fn spec_step(s: Exec) -> Exec {
    let s1 = spec_ei_commit(s);
    match spec_decode_base(s1.m.ir) {
        Some(op) => spec_op(s1, op).tick(),
        None => s1,
    }
}

/// The value that `get_register` reads for each register name.
pub open spec fn spec_register_value(m: RegisterModel, register: RegisterName) -> u16 {
    match register {
        RegisterName::IR => m.ir as u16,
        RegisterName::IE => m.ie as u16,
        RegisterName::AF => m.af(),
        RegisterName::A => m.a as u16,
        RegisterName::F => m.f as u16,
        RegisterName::BC => m.bc(),
        RegisterName::B => m.b as u16,
        RegisterName::C => m.c as u16,
        RegisterName::DE => m.de(),
        RegisterName::D => m.d as u16,
        RegisterName::E => m.e as u16,
        RegisterName::HL => m.hl(),
        RegisterName::H => m.h as u16,
        RegisterName::L => m.l as u16,
        RegisterName::PC => m.pc,
        RegisterName::SP => m.sp,
    }
}

/// Bit facts about the flag rewrites that the instruction arms perform:
/// masked updates keep the low nibble zero and commute with the 0xF0 mask
/// that every write to F applies.
proof fn lemma_cpu_flag_bits(f: u8, g: u8)
    by (bit_vector)
    ensures
        (g & 0x30) & 0xF0 == g & 0x30,
        (g & 0x10) & 0xF0 == g & 0x10,
        (g & 0x30) & 0x0F == 0,
        (g & 0x10) & 0x0F == 0,
        ((g & 0x10) >> 4) == (if g & 0x10 != 0 {
            1u8
        } else {
            0u8
        }),
        g & 0x0F == 0 ==> (((f & 0x80) | (g & 0x7F)) & 0xF0) == ((f & 0x80) | (g & 0x7F)),
        g & 0x0F == 0 ==> (((f & 0x80) | (g & 0x7F)) & 0x0F) == 0,
        f & 0x0F == 0 ==> ((((f & 0xDF) & 0xBF) ^ 0x10) & 0x0F) == 0,
        f & 0x0F == 0 ==> ((((f & 0xDF) & 0xBF) | 0x10) & 0x0F) == 0,
        f & 0x0F == 0 ==> (((f | 0x40) | 0x20) & 0x0F) == 0,
{
}

/// What the decoded opcode says of its operand fields: register indexes
/// read from the instruction byte are in range, and the index 6 — which
/// would denote memory at HL — never appears where a register is required,
/// because the memory forms are matched before the register families.
proof fn lemma_decode_operands(ir: u8)
    ensures
        ((ir >> 3) & 0x07) < 8,
        (ir & 0x07) < 8,
        ((ir & 0x38) >> 3) < 8,
        ((ir & 0x30) >> 4) < 4,
        ((ir >> 3) & 0x03) < 4,
        ((ir >> 4) & 0x03) < 4,
        spec_decode_base(ir) == Some(OpCode::LD_r_n) ==> crate::registers::spec_r8_writable(
            (ir >> 3) & 0x07,
        ),
        spec_decode_base(ir) == Some(OpCode::LD_r_r) ==> crate::registers::spec_r8_writable(
            (ir >> 3) & 0x07,
        ) && crate::registers::spec_r8_writable(ir & 0x07),
        spec_decode_base(ir) == Some(OpCode::LD_r_HL) ==> crate::registers::spec_r8_writable(
            (ir >> 3) & 0x07,
        ),
        spec_decode_base(ir) == Some(OpCode::LD_HL_r) ==> crate::registers::spec_r8_writable(
            ir & 0x07,
        ),
        (spec_decode_base(ir) == Some(OpCode::ADD_r) || spec_decode_base(ir) == Some(OpCode::ADC_r)
            || spec_decode_base(ir) == Some(OpCode::SUB_r) || spec_decode_base(ir) == Some(
            OpCode::SBC_r,
        ) || spec_decode_base(ir) == Some(OpCode::CP_r) || spec_decode_base(ir) == Some(
            OpCode::AND_r,
        ) || spec_decode_base(ir) == Some(OpCode::OR_r) || spec_decode_base(ir) == Some(
            OpCode::XOR_r,
        )) ==> crate::registers::spec_r8_writable(ir & 0x07),
        (spec_decode_base(ir) == Some(OpCode::INC_r) || spec_decode_base(ir) == Some(
            OpCode::DEC_r,
        )) ==> crate::registers::spec_r8_writable((ir & 0x38) >> 3),
{
    assert(((ir >> 3) & 0x07) < 8 && (ir & 0x07) < 8 && ((ir & 0x38) >> 3) < 8 && ((ir & 0x30) >> 4)
        < 4 && ((ir >> 3) & 0x03) < 4 && ((ir >> 4) & 0x03) < 4 && ((ir >> 6) & 0x03 == 0x00 && ir
        & 0x07 == 0x06 && ir != 0x36 ==> ((ir >> 3) & 0x07) != 6) && ((ir >> 6) & 0x03 == 0x01 && ir
        & 0x07 == 0x06 && ir != 0x76 ==> ((ir >> 3) & 0x07) != 6) && (ir & 0xF8 == 0x80 && ir
        != 0x86 ==> (ir & 0x07) != 6) && (ir & 0xF8 == 0x88 && ir != 0x8E ==> (ir & 0x07) != 6) && (
    ir & 0xF8 == 0x90 && ir != 0x96 ==> (ir & 0x07) != 6) && (ir & 0xF8 == 0x98 && ir != 0x9E ==> (
    ir & 0x07) != 6) && (ir & 0xF8 == 0xB8 && ir != 0xBE ==> (ir & 0x07) != 6) && (ir & 0xF8 == 0xA0
        && ir != 0xA6 ==> (ir & 0x07) != 6) && (ir & 0xF8 == 0xB0 && ir != 0xB6 ==> (ir & 0x07)
        != 6) && (ir & 0xF8 == 0xA8 && ir != 0xAE ==> (ir & 0x07) != 6) && (ir & 0xC7 == 0x04 && ir
        != 0x34 ==> ((ir & 0x38) >> 3) != 6) && (ir & 0xC7 == 0x05 && ir != 0x35 ==> ((ir & 0x38)
        >> 3) != 6)) by (bit_vector);
}

/// What the decoded CB opcode says of its operand fields.
proof fn lemma_decode_cb_operands(cb: u8)
    ensures
        ((cb & 0x38) >> 3) < 8,
        (cb & 0x07) < 8,
        (spec_decode_cb(cb) == Some(CBPrefixOpCode::RLC_r) || spec_decode_cb(cb) == Some(
            CBPrefixOpCode::RRC_r,
        ) || spec_decode_cb(cb) == Some(CBPrefixOpCode::RL_r) || spec_decode_cb(cb) == Some(
            CBPrefixOpCode::RR_r,
        ) || spec_decode_cb(cb) == Some(CBPrefixOpCode::SLA_r) || spec_decode_cb(cb) == Some(
            CBPrefixOpCode::SRA_r,
        ) || spec_decode_cb(cb) == Some(CBPrefixOpCode::SWAP_r) || spec_decode_cb(cb) == Some(
            CBPrefixOpCode::SRL_r,
        ) || spec_decode_cb(cb) == Some(CBPrefixOpCode::BIT_b_r) || spec_decode_cb(cb) == Some(
            CBPrefixOpCode::SET_b_r,
        ) || spec_decode_cb(cb) == Some(CBPrefixOpCode::RES_b_r)) ==>
            crate::registers::spec_r8_writable(cb & 0x07),
{
    assert(((cb & 0x38) >> 3) < 8 && (cb & 0x07) < 8 && (cb & 0xF8 == 0x00 && cb != 0x06 ==> (cb
        & 0x07) != 6) && (cb & 0xF8 == 0x08 && cb != 0x0E ==> (cb & 0x07) != 6) && (cb & 0xF8
        == 0x10 && cb != 0x16 ==> (cb & 0x07) != 6) && (cb & 0xF8 == 0x18 && cb != 0x1E ==> (cb
        & 0x07) != 6) && (cb & 0xF8 == 0x20 && cb != 0x26 ==> (cb & 0x07) != 6) && (cb & 0xF8
        == 0x28 && cb != 0x2E ==> (cb & 0x07) != 6) && (cb & 0xF8 == 0x30 && cb != 0x36 ==> (cb
        & 0x07) != 6) && (cb & 0xF8 == 0x38 && cb != 0x3E ==> (cb & 0x07) != 6) && (cb & 0xC0
        == 0x40 && cb & 0xC7 != 0x46 ==> (cb & 0x07) != 6) && (cb & 0xC0 == 0x80 && cb & 0xC7
        != 0x86 ==> (cb & 0x07) != 6) && (cb & 0xC0 == 0xC0 && cb & 0xC7 != 0xC6 ==> (cb & 0x07)
        != 6)) by (bit_vector);
}

/// Loading a snapshot and capturing one immediately afterwards returns the
/// very snapshot that was loaded — PC equal exactly, with no adjustment —
/// for every snapshot whose F byte keeps its low nibble zero. (A snapshot
/// whose F byte carries bits in the low nibble cannot round-trip, because
/// every write to F masks them off.) `cpu` stands for any CPU in the state
/// that `load_snapshot(s)` leaves behind.
pub proof fn lemma_snapshot_round_trip(cpu: SM83, s: SM83Snapshot)
    requires
        s.f & 0x0F == 0,
        cpu.regs() == (RegisterModel {
            ir: s.ir,
            ie: s.ie,
            a: s.a,
            f: s.f & 0xF0,
            b: s.b,
            c: s.c,
            d: s.d,
            e: s.e,
            h: s.h,
            l: s.l,
            pc: s.pc,
            sp: s.sp,
        }),
        cpu.abus() == s.address_bus,
        cpu.dbus() == s.data_bus,
        cpu.ime_on() == s.ime,
    ensures
        cpu.spec_snapshot() == s,
{
    let f = s.f;
    assert(f & 0x0F == 0 ==> f & 0xF0 == f) by (bit_vector);
}

} // verus!
