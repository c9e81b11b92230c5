//! The register file: eight 8-bit registers grouped into four aliased 16-bit
//! pairs, the program counter, the stack pointer (aliased as S:P for address
//! arithmetic), and the instruction/interrupt-enable pair. Writes to F mask
//! off its low nibble, so that the four flag bits are all F ever holds.

use crate::bits::lemma_u16_bytes;
use crate::bits::lemma_u16_replace_byte;
use crate::bits::lemma_u8_masks;
use vstd::arithmetic::div_mod::lemma_fundamental_div_mod;
use vstd::prelude::*;

verus! {

/// A 16-bit register addressable as two 8-bit halves.
pub struct Shared16BitRegister {
    content: u16,
}

impl Shared16BitRegister {
    /// The full 16-bit content.
    pub closed spec fn value(&self) -> u16 {
        self.content
    }

    /// The high byte.
    pub open spec fn hi(&self) -> u8 {
        (self.value() / 0x100) as u8
    }

    /// The low byte.
    pub open spec fn lo(&self) -> u8 {
        (self.value() % 0x100) as u8
    }

    pub fn new() -> (r: Shared16BitRegister)
        ensures
            r.value() == 0,
    {
        Shared16BitRegister { content: 0 }
    }

    pub fn first(&self) -> (r: u8)
        ensures
            r == self.hi(),
    {
        proof {
            lemma_u16_bytes();
        }
        ((self.content & 0xFF00) >> 8) as u8
    }

    pub fn second(&self) -> (r: u8)
        ensures
            r == self.lo(),
    {
        proof {
            lemma_u16_bytes();
        }
        (self.content & 0x00FF) as u8
    }

    pub fn write_first(&mut self, value: u8)
        ensures
            final(self).value() == 0x100 * (value as u16) + old(self).value() % 0x100,
            final(self).hi() == value,
            final(self).lo() == old(self).lo(),
    {
        proof {
            lemma_u16_replace_byte();
        }
        self.content = self.content & 0x00FF | ((value as u16) << 8);
    }

    pub fn write_second(&mut self, value: u8)
        ensures
            final(self).value() == 0x100 * (old(self).value() / 0x100) + value,
            final(self).hi() == old(self).hi(),
            final(self).lo() == value,
    {
        proof {
            lemma_u16_replace_byte();
        }
        self.content = self.content & 0xFF00 | (value as u16);
    }

    pub fn write(&mut self, value: u16)
        ensures
            final(self).value() == value,
    {
        self.content = value;
    }

    pub fn read(&self) -> (r: u16)
        ensures
            r == self.value(),
    {
        self.content
    }
}

/// The registers that one of the 16 register names may denote.
pub enum RegisterName {
    IR,
    IE,
    A,
    F,
    AF,
    B,
    C,
    BC,
    D,
    E,
    DE,
    H,
    L,
    HL,
    PC,
    SP,
}

/// Returned when an 8-bit or 16-bit register index falls outside its
/// encoding; the payload is the offending index.
#[derive(Debug)]
pub enum RegisterError {
    InvalidIndex(u8),
}

/// The mathematical content of the register file: the twelve 8-bit and
/// 16-bit registers as plain values, with the pairs kept as their bytes.
pub struct RegisterModel {
    pub ir: u8,
    pub ie: u8,
    pub a: u8,
    pub f: u8,
    pub b: u8,
    pub c: u8,
    pub d: u8,
    pub e: u8,
    pub h: u8,
    pub l: u8,
    pub pc: u16,
    pub sp: u16,
}

impl RegisterModel {
    pub open spec fn af(self) -> u16 {
        (self.a * 0x100 + self.f) as u16
    }

    pub open spec fn bc(self) -> u16 {
        (self.b * 0x100 + self.c) as u16
    }

    pub open spec fn de(self) -> u16 {
        (self.d * 0x100 + self.e) as u16
    }

    pub open spec fn hl(self) -> u16 {
        (self.h * 0x100 + self.l) as u16
    }

    /// The high byte of the stack pointer.
    pub open spec fn s(self) -> u8 {
        (self.sp / 0x100) as u8
    }

    /// The low byte of the stack pointer.
    pub open spec fn p(self) -> u8 {
        (self.sp % 0x100) as u8
    }

    /// The low nibble of F holds no flag bit and is always zero.
    pub open spec fn wf(self) -> bool {
        self.f & 0x0F == 0
    }
}

pub struct RegisterFile {
    irie: Shared16BitRegister,
    af: Shared16BitRegister,
    bc: Shared16BitRegister,
    de: Shared16BitRegister,
    hl: Shared16BitRegister,
    pc: u16,
    sp: Shared16BitRegister,
}

impl View for RegisterFile {
    type V = RegisterModel;

    closed spec fn view(&self) -> RegisterModel {
        RegisterModel {
            ir: self.irie.hi(),
            ie: self.irie.lo(),
            a: self.af.hi(),
            f: self.af.lo(),
            b: self.bc.hi(),
            c: self.bc.lo(),
            d: self.de.hi(),
            e: self.de.lo(),
            h: self.hl.hi(),
            l: self.hl.lo(),
            pc: self.pc,
            sp: self.sp.value(),
        }
    }
}

/// Relates a 16-bit register's value to its two bytes.
proof fn lemma_split_bytes(v: u16)
    ensures
        v == 0x100 * (v / 0x100) + v % 0x100,
        v / 0x100 <= 0xFF,
{
    lemma_fundamental_div_mod(v as int, 0x100);
}

impl RegisterFile {
    pub fn new() -> (r: RegisterFile)
        ensures
            r@ == (RegisterModel {
                ir: 0,
                ie: 0,
                a: 0,
                f: 0,
                b: 0,
                c: 0,
                d: 0,
                e: 0,
                h: 0,
                l: 0,
                pc: 0,
                sp: 0,
            }),
    {
        RegisterFile {
            irie: Shared16BitRegister::new(),
            af: Shared16BitRegister::new(),
            bc: Shared16BitRegister::new(),
            de: Shared16BitRegister::new(),
            hl: Shared16BitRegister::new(),
            pc: 0,
            sp: Shared16BitRegister::new(),
        }
    }

    pub fn get_ir(&self) -> (r: u8)
        ensures
            r == self@.ir,
    {
        self.irie.first()
    }

    pub fn get_ie(&self) -> (r: u8)
        ensures
            r == self@.ie,
    {
        self.irie.second()
    }

    pub fn get_af(&self) -> (r: u16)
        ensures
            r == self@.af(),
    {
        proof {
            lemma_split_bytes(self.af.value());
        }
        self.af.read()
    }

    pub fn get_a(&self) -> (r: u8)
        ensures
            r == self@.a,
    {
        self.af.first()
    }

    pub fn get_f(&self) -> (r: u8)
        ensures
            r == self@.f,
    {
        self.af.second()
    }

    pub fn get_bc(&self) -> (r: u16)
        ensures
            r == self@.bc(),
    {
        proof {
            lemma_split_bytes(self.bc.value());
        }
        self.bc.read()
    }

    pub fn get_b(&self) -> (r: u8)
        ensures
            r == self@.b,
    {
        self.bc.first()
    }

    pub fn get_c(&self) -> (r: u8)
        ensures
            r == self@.c,
    {
        self.bc.second()
    }

    pub fn get_de(&self) -> (r: u16)
        ensures
            r == self@.de(),
    {
        proof {
            lemma_split_bytes(self.de.value());
        }
        self.de.read()
    }

    pub fn get_d(&self) -> (r: u8)
        ensures
            r == self@.d,
    {
        self.de.first()
    }

    pub fn get_e(&self) -> (r: u8)
        ensures
            r == self@.e,
    {
        self.de.second()
    }

    pub fn get_hl(&self) -> (r: u16)
        ensures
            r == self@.hl(),
    {
        proof {
            lemma_split_bytes(self.hl.value());
        }
        self.hl.read()
    }

    pub fn get_h(&self) -> (r: u8)
        ensures
            r == self@.h,
    {
        self.hl.first()
    }

    pub fn get_l(&self) -> (r: u8)
        ensures
            r == self@.l,
    {
        self.hl.second()
    }

    pub fn get_pc(&self) -> (r: u16)
        ensures
            r == self@.pc,
    {
        self.pc
    }

    pub fn get_sp(&self) -> (r: u16)
        ensures
            r == self@.sp,
    {
        self.sp.read()
    }

    pub fn get_s(&self) -> (r: u8)
        ensures
            r == self@.s(),
    {
        self.sp.first()
    }

    pub fn get_p(&self) -> (r: u8)
        ensures
            r == self@.p(),
    {
        self.sp.second()
    }

    pub fn set_ir(&mut self, value: u8)
        ensures
            final(self)@ == (RegisterModel { ir: value, ..old(self)@ }),
    {
        self.irie.write_first(value)
    }

    pub fn set_ie(&mut self, value: u8)
        ensures
            final(self)@ == (RegisterModel { ie: value, ..old(self)@ }),
    {
        self.irie.write_second(value)
    }

    /// Writes A and F at once; the low nibble of the F half is masked off.
    pub fn set_af(&mut self, value: u16)
        ensures
            final(self)@ == (RegisterModel {
                a: (value / 0x100) as u8,
                f: ((value % 0x100) as u8) & 0xF0,
                ..old(self)@
            }),
    {
        proof {
            lemma_u16_bytes();
            lemma_u8_masks();
            lemma_split_bytes(value);
        }
        let high = ((value & 0xFF00) >> 8) as u8;
        let low = (value & 0x00FF) as u8;
        self.af.write_first(high);
        self.af.write_second(low & 0xF0);
    }

    pub fn set_a(&mut self, value: u8)
        ensures
            final(self)@ == (RegisterModel { a: value, ..old(self)@ }),
    {
        self.af.write_first(value)
    }

    /// Writes F; the low nibble is masked off.
    pub fn set_f(&mut self, value: u8)
        ensures
            final(self)@ == (RegisterModel { f: value & 0xF0, ..old(self)@ }),
            final(self)@.wf(),
    {
        proof {
            lemma_u8_masks();
            assert((value & 0xF0) & 0x0F == 0) by (bit_vector);
        }
        self.af.write_second(value & 0xF0)
    }

    pub fn set_bc(&mut self, value: u16)
        ensures
            final(self)@ == (RegisterModel {
                b: (value / 0x100) as u8,
                c: (value % 0x100) as u8,
                ..old(self)@
            }),
            final(self)@.bc() == value,
    {
        proof {
            lemma_split_bytes(value);
        }
        self.bc.write(value)
    }

    pub fn set_b(&mut self, value: u8)
        ensures
            final(self)@ == (RegisterModel { b: value, ..old(self)@ }),
    {
        self.bc.write_first(value)
    }

    pub fn set_c(&mut self, value: u8)
        ensures
            final(self)@ == (RegisterModel { c: value, ..old(self)@ }),
    {
        self.bc.write_second(value)
    }

    pub fn set_de(&mut self, value: u16)
        ensures
            final(self)@ == (RegisterModel {
                d: (value / 0x100) as u8,
                e: (value % 0x100) as u8,
                ..old(self)@
            }),
            final(self)@.de() == value,
    {
        proof {
            lemma_split_bytes(value);
        }
        self.de.write(value)
    }

    pub fn set_d(&mut self, value: u8)
        ensures
            final(self)@ == (RegisterModel { d: value, ..old(self)@ }),
    {
        self.de.write_first(value)
    }

    pub fn set_e(&mut self, value: u8)
        ensures
            final(self)@ == (RegisterModel { e: value, ..old(self)@ }),
    {
        self.de.write_second(value)
    }

    pub fn set_hl(&mut self, value: u16)
        ensures
            final(self)@ == (RegisterModel {
                h: (value / 0x100) as u8,
                l: (value % 0x100) as u8,
                ..old(self)@
            }),
            final(self)@.hl() == value,
    {
        proof {
            lemma_split_bytes(value);
        }
        self.hl.write(value)
    }

    pub fn set_h(&mut self, value: u8)
        ensures
            final(self)@ == (RegisterModel { h: value, ..old(self)@ }),
    {
        self.hl.write_first(value)
    }

    pub fn set_l(&mut self, value: u8)
        ensures
            final(self)@ == (RegisterModel { l: value, ..old(self)@ }),
    {
        self.hl.write_second(value)
    }

    pub fn set_pc(&mut self, value: u16)
        ensures
            final(self)@ == (RegisterModel { pc: value, ..old(self)@ }),
    {
        self.pc = value;
    }

    pub fn set_sp(&mut self, value: u16)
        ensures
            final(self)@ == (RegisterModel { sp: value, ..old(self)@ }),
    {
        self.sp.write(value)
    }

    pub fn set_s(&mut self, value: u8)
        ensures
            final(self)@ == (RegisterModel {
                sp: (0x100 * (value as u16) + old(self)@.sp % 0x100) as u16,
                ..old(self)@
            }),
            final(self)@.s() == value,
            final(self)@.p() == old(self)@.p(),
    {
        self.sp.write_first(value)
    }

    pub fn set_p(&mut self, value: u8)
        ensures
            final(self)@ == (RegisterModel {
                sp: (0x100 * (old(self)@.sp / 0x100) + value) as u16,
                ..old(self)@
            }),
            final(self)@.s() == old(self)@.s(),
            final(self)@.p() == value,
    {
        self.sp.write_second(value)
    }

    /// Writes an 8-bit register by its index in the instruction encoding
    /// (B=0, C=1, D=2, E=3, H=4, L=5, A=7). Index 6 denotes memory at HL and
    /// is not a register; it and every index above 7 are rejected.
    pub fn set(&mut self, reg: u8, val: u8) -> (r: Result<(), RegisterError>)
        ensures
            r is Ok <==> spec_r8_writable(reg),
            r is Ok ==> final(self)@ == spec_set_r8(old(self)@, reg, val),
            r is Err ==> final(self)@ == old(self)@,
    {
        if reg == 0x00 {
            self.set_b(val);
        } else if reg == 0x01 {
            self.set_c(val);
        } else if reg == 0x02 {
            self.set_d(val);
        } else if reg == 0x03 {
            self.set_e(val);
        } else if reg == 0x04 {
            self.set_h(val);
        } else if reg == 0x05 {
            self.set_l(val);
        } else if reg == 0x07 {
            self.set_a(val);
        } else {
            return Err(RegisterError::InvalidIndex(reg));
        }
        Ok(())
    }

    /// Reads an 8-bit register by its index in the instruction encoding;
    /// index 6 and indexes above 7 are rejected.
    pub fn get(&self, reg: u8) -> (r: Result<u8, RegisterError>)
        ensures
            r is Ok <==> spec_r8_writable(reg),
            r is Ok ==> r == Ok::<u8, RegisterError>(spec_get_r8(self@, reg)),
    {
        if reg == 0x00 {
            Ok(self.get_b())
        } else if reg == 0x01 {
            Ok(self.get_c())
        } else if reg == 0x02 {
            Ok(self.get_d())
        } else if reg == 0x03 {
            Ok(self.get_e())
        } else if reg == 0x04 {
            Ok(self.get_h())
        } else if reg == 0x05 {
            Ok(self.get_l())
        } else if reg == 0x07 {
            Ok(self.get_a())
        } else {
            Err(RegisterError::InvalidIndex(reg))
        }
    }

    /// Reads a 16-bit register pair by the dd encoding (BC=0, DE=1, HL=2,
    /// SP=3); indexes above 3 are rejected.
    pub fn get16(&self, reg: u8) -> (r: Result<u16, RegisterError>)
        ensures
            r is Ok <==> reg < 4,
            reg < 4 ==> r == Ok::<u16, RegisterError>(spec_get_dd(self@, reg)),
    {
        if reg == 0x00 {
            Ok(self.get_bc())
        } else if reg == 0x01 {
            Ok(self.get_de())
        } else if reg == 0x02 {
            Ok(self.get_hl())
        } else if reg == 0x03 {
            Ok(self.get_sp())
        } else {
            Err(RegisterError::InvalidIndex(reg))
        }
    }

    /// Writes a 16-bit register pair by the dd encoding (BC=0, DE=1, HL=2,
    /// SP=3); indexes above 3 are rejected.
    pub fn set16(&mut self, reg: u8, val: u16) -> (r: Result<(), RegisterError>)
        ensures
            r is Ok <==> reg < 4,
            reg < 4 ==> final(self)@ == spec_set_dd(old(self)@, reg, val),
            r is Err ==> final(self)@ == old(self)@,
    {
        if reg == 0x00 {
            self.set_bc(val);
        } else if reg == 0x01 {
            self.set_de(val);
        } else if reg == 0x02 {
            self.set_hl(val);
        } else if reg == 0x03 {
            self.set_sp(val);
        } else {
            return Err(RegisterError::InvalidIndex(reg));
        }
        Ok(())
    }

    /// Reads a 16-bit register pair by the qq encoding (BC=0, DE=1, HL=2,
    /// AF=3); indexes above 3 are rejected.
    pub fn get16_qq(&self, reg: u8) -> (r: Result<u16, RegisterError>)
        ensures
            r is Ok <==> reg < 4,
            reg < 4 ==> r == Ok::<u16, RegisterError>(spec_get_qq(self@, reg)),
    {
        if reg == 0x00 {
            Ok(self.get_bc())
        } else if reg == 0x01 {
            Ok(self.get_de())
        } else if reg == 0x02 {
            Ok(self.get_hl())
        } else if reg == 0x03 {
            Ok(self.get_af())
        } else {
            Err(RegisterError::InvalidIndex(reg))
        }
    }

    /// Writes a 16-bit register pair by the qq encoding (BC=0, DE=1, HL=2,
    /// AF=3). A write to AF masks the low nibble of F off. Indexes above 3
    /// are rejected.
    pub fn set16_qq(&mut self, reg: u8, val: u16) -> (r: Result<(), RegisterError>)
        ensures
            r is Ok <==> reg < 4,
            reg < 4 ==> final(self)@ == spec_set_qq(old(self)@, reg, val),
            r is Err ==> final(self)@ == old(self)@,
    {
        if reg == 0x00 {
            self.set_bc(val);
        } else if reg == 0x01 {
            self.set_de(val);
        } else if reg == 0x02 {
            self.set_hl(val);
        } else if reg == 0x03 {
            self.set_af(val);
        } else {
            return Err(RegisterError::InvalidIndex(reg));
        }
        Ok(())
    }

    /// The zero flag as 0 or 1.
    pub fn get_zero_flag(&self) -> (r: u8)
        ensures
            r == (if self@.f & 0x80 != 0 {
                1u8
            } else {
                0u8
            }),
    {
        proof {
            lemma_flag_extract(self@.f);
        }
        (self.get_f() & 0x80) >> 7
    }

    pub fn set_zero_flag(&mut self)
        ensures
            final(self)@ == (RegisterModel { f: old(self)@.f | 0x80, ..old(self)@ }),
    {
        let f = self.get_f();
        self.af.write_second(f | 0x80)
    }

    pub fn unset_zero_flag(&mut self)
        ensures
            final(self)@ == (RegisterModel { f: old(self)@.f & 0x7F, ..old(self)@ }),
    {
        let f = self.get_f();
        self.af.write_second(f & 0x7F)
    }

    /// The negative (subtract) flag as 0 or 1.
    pub fn get_negative_flag(&self) -> (r: u8)
        ensures
            r == (if self@.f & 0x40 != 0 {
                1u8
            } else {
                0u8
            }),
    {
        proof {
            lemma_flag_extract(self@.f);
        }
        (self.get_f() & 0x40) >> 6
    }

    pub fn set_negative_flag(&mut self)
        ensures
            final(self)@ == (RegisterModel { f: old(self)@.f | 0x40, ..old(self)@ }),
    {
        let f = self.get_f();
        self.af.write_second(f | 0x40)
    }

    pub fn unset_negative_flag(&mut self)
        ensures
            final(self)@ == (RegisterModel { f: old(self)@.f & 0xBF, ..old(self)@ }),
    {
        let f = self.get_f();
        self.af.write_second(f & 0xBF)
    }

    /// The half-carry flag as 0 or 1.
    pub fn get_half_carry_flag(&self) -> (r: u8)
        ensures
            r == (if self@.f & 0x20 != 0 {
                1u8
            } else {
                0u8
            }),
    {
        proof {
            lemma_flag_extract(self@.f);
        }
        (self.get_f() & 0x20) >> 5
    }

    pub fn set_half_carry_flag(&mut self)
        ensures
            final(self)@ == (RegisterModel { f: old(self)@.f | 0x20, ..old(self)@ }),
    {
        let f = self.get_f();
        self.af.write_second(f | 0x20)
    }

    pub fn unset_half_carry_flag(&mut self)
        ensures
            final(self)@ == (RegisterModel { f: old(self)@.f & 0xDF, ..old(self)@ }),
    {
        let f = self.get_f();
        self.af.write_second(f & 0xDF)
    }

    /// The carry flag as 0 or 1.
    pub fn get_carry_flag(&self) -> (r: u8)
        ensures
            r == (if self@.f & 0x10 != 0 {
                1u8
            } else {
                0u8
            }),
    {
        proof {
            lemma_flag_extract(self@.f);
        }
        (self.get_f() & 0x10) >> 4
    }

    pub fn set_carry_flag(&mut self)
        ensures
            final(self)@ == (RegisterModel { f: old(self)@.f | 0x10, ..old(self)@ }),
    {
        let f = self.get_f();
        self.af.write_second(f | 0x10)
    }

    pub fn unset_carry_flag(&mut self)
        ensures
            final(self)@ == (RegisterModel { f: old(self)@.f & 0xEF, ..old(self)@ }),
    {
        let f = self.get_f();
        self.af.write_second(f & 0xEF)
    }

    /// Sets the given high-nibble flag bits without touching the other flag
    /// bits; the low nibble stays zero.
    pub fn or_flags(&mut self, flags: u8)
        ensures
            final(self)@ == (RegisterModel {
                f: (old(self)@.f | (flags & 0xF0)) & 0xF0,
                ..old(self)@
            }),
    {
        let f = self.get_f();
        self.af.write_second((f | (flags & 0xF0)) & 0xF0)
    }

    /// Flips the carry flag and leaves every other bit of F unchanged.
    pub fn flip_carry_flag(&mut self)
        ensures
            final(self)@ == (RegisterModel { f: old(self)@.f ^ 0x10, ..old(self)@ }),
    {
        let f = self.get_f();
        self.af.write_second(f ^ 0x10)
    }
}

/// Whether an 8-bit register index denotes a register (index 6 denotes
/// memory at HL and is handled by the CPU core, not the register file).
pub open spec fn spec_r8_writable(reg: u8) -> bool {
    reg < 8 && reg != 6
}

/// The register that an 8-bit index reads.
pub open spec fn spec_get_r8(m: RegisterModel, reg: u8) -> u8 {
    if reg == 0 {
        m.b
    } else if reg == 1 {
        m.c
    } else if reg == 2 {
        m.d
    } else if reg == 3 {
        m.e
    } else if reg == 4 {
        m.h
    } else if reg == 5 {
        m.l
    } else {
        m.a
    }
}

/// The register file after a write through an 8-bit index.
pub open spec fn spec_set_r8(m: RegisterModel, reg: u8, val: u8) -> RegisterModel {
    if reg == 0 {
        RegisterModel { b: val, ..m }
    } else if reg == 1 {
        RegisterModel { c: val, ..m }
    } else if reg == 2 {
        RegisterModel { d: val, ..m }
    } else if reg == 3 {
        RegisterModel { e: val, ..m }
    } else if reg == 4 {
        RegisterModel { h: val, ..m }
    } else if reg == 5 {
        RegisterModel { l: val, ..m }
    } else {
        RegisterModel { a: val, ..m }
    }
}

/// The register pair that a dd index reads (BC=0, DE=1, HL=2, SP=3).
pub open spec fn spec_get_dd(m: RegisterModel, reg: u8) -> u16 {
    if reg == 0 {
        m.bc()
    } else if reg == 1 {
        m.de()
    } else if reg == 2 {
        m.hl()
    } else {
        m.sp
    }
}

/// The register file after a write through a dd index.
pub open spec fn spec_set_dd(m: RegisterModel, reg: u8, val: u16) -> RegisterModel {
    if reg == 0 {
        RegisterModel { b: (val / 0x100) as u8, c: (val % 0x100) as u8, ..m }
    } else if reg == 1 {
        RegisterModel { d: (val / 0x100) as u8, e: (val % 0x100) as u8, ..m }
    } else if reg == 2 {
        RegisterModel { h: (val / 0x100) as u8, l: (val % 0x100) as u8, ..m }
    } else {
        RegisterModel { sp: val, ..m }
    }
}

/// The register pair that a qq index reads (BC=0, DE=1, HL=2, AF=3).
pub open spec fn spec_get_qq(m: RegisterModel, reg: u8) -> u16 {
    if reg == 0 {
        m.bc()
    } else if reg == 1 {
        m.de()
    } else if reg == 2 {
        m.hl()
    } else {
        m.af()
    }
}

/// The register file after a write through a qq index; a write to AF masks
/// the low nibble of F off.
pub open spec fn spec_set_qq(m: RegisterModel, reg: u8, val: u16) -> RegisterModel {
    if reg == 0 {
        RegisterModel { b: (val / 0x100) as u8, c: (val % 0x100) as u8, ..m }
    } else if reg == 1 {
        RegisterModel { d: (val / 0x100) as u8, e: (val % 0x100) as u8, ..m }
    } else if reg == 2 {
        RegisterModel { h: (val / 0x100) as u8, l: (val % 0x100) as u8, ..m }
    } else {
        RegisterModel { a: (val / 0x100) as u8, f: ((val % 0x100) as u8) & 0xF0, ..m }
    }
}

/// Each flag bit, shifted down to its own position, reads as 0 or 1.
proof fn lemma_flag_extract(f: u8)
    by (bit_vector)
    ensures
        ((f & 0x80) >> 7) == (if f & 0x80 != 0 {
            1u8
        } else {
            0u8
        }),
        ((f & 0x40) >> 6) == (if f & 0x40 != 0 {
            1u8
        } else {
            0u8
        }),
        ((f & 0x20) >> 5) == (if f & 0x20 != 0 {
            1u8
        } else {
            0u8
        }),
        ((f & 0x10) >> 4) == (if f & 0x10 != 0 {
            1u8
        } else {
            0u8
        }),
{
}

} // verus!
