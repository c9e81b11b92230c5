//! A serializable capture of the whole observable CPU state: the register
//! file, the interrupt master enable, and the two buses. Snapshots are built
//! with a fluent constructor and compared field by field for differential
//! test harnesses.

use vstd::prelude::*;
use vstd::string::StringExecFns;

verus! {

#[derive(Debug, Clone, Copy, PartialEq, Eq, Structural)]
pub struct SM83Snapshot {
    pub address_bus: u16,
    pub data_bus: u8,
    pub ir: u8,
    pub ie: u8,
    pub a: u8,
    pub b: u8,
    pub c: u8,
    pub d: u8,
    pub e: u8,
    pub f: u8,
    pub h: u8,
    pub l: u8,
    pub sp: u16,
    pub pc: u16,
    pub ime: bool,
}

impl SM83Snapshot {
    /// The all-zero snapshot, as a freshly created CPU would capture it.
    pub fn new() -> (r: Self)
        ensures
            r == (SM83Snapshot {
                address_bus: 0,
                data_bus: 0,
                ir: 0,
                ie: 0,
                a: 0,
                b: 0,
                c: 0,
                d: 0,
                e: 0,
                f: 0,
                h: 0,
                l: 0,
                sp: 0,
                pc: 0,
                ime: false,
            }),
    {
        SM83Snapshot {
            address_bus: 0,
            data_bus: 0,
            ir: 0,
            ie: 0,
            a: 0,
            b: 0,
            c: 0,
            d: 0,
            e: 0,
            f: 0,
            h: 0,
            l: 0,
            sp: 0,
            pc: 0,
            ime: false,
        }
    }

    pub fn with_ime(self, v: bool) -> (r: Self)
        ensures
            r == (SM83Snapshot { ime: v, ..self }),
    {
        SM83Snapshot { ime: v, ..self }
    }

    pub fn with_address_bus(self, v: u16) -> (r: Self)
        ensures
            r == (SM83Snapshot { address_bus: v, ..self }),
    {
        SM83Snapshot { address_bus: v, ..self }
    }

    pub fn with_sp(self, v: u16) -> (r: Self)
        ensures
            r == (SM83Snapshot { sp: v, ..self }),
    {
        SM83Snapshot { sp: v, ..self }
    }

    pub fn with_pc(self, v: u16) -> (r: Self)
        ensures
            r == (SM83Snapshot { pc: v, ..self }),
    {
        SM83Snapshot { pc: v, ..self }
    }

    /// Sets A and F from a 16-bit value, high byte to A.
    pub fn with_af(self, v: u16) -> (r: Self)
        ensures
            r == (SM83Snapshot { a: (v / 0x100) as u8, f: (v % 0x100) as u8, ..self }),
    {
        proof {
            crate::bits::lemma_u16_bytes();
        }
        SM83Snapshot { a: ((v & 0xFF00) >> 8) as u8, f: (v & 0x00FF) as u8, ..self }
    }

    /// Sets B and C from a 16-bit value, high byte to B.
    pub fn with_bc(self, v: u16) -> (r: Self)
        ensures
            r == (SM83Snapshot { b: (v / 0x100) as u8, c: (v % 0x100) as u8, ..self }),
    {
        proof {
            crate::bits::lemma_u16_bytes();
        }
        SM83Snapshot { b: ((v & 0xFF00) >> 8) as u8, c: (v & 0x00FF) as u8, ..self }
    }

    /// Sets D and E from a 16-bit value, high byte to D.
    pub fn with_de(self, v: u16) -> (r: Self)
        ensures
            r == (SM83Snapshot { d: (v / 0x100) as u8, e: (v % 0x100) as u8, ..self }),
    {
        proof {
            crate::bits::lemma_u16_bytes();
        }
        SM83Snapshot { d: ((v & 0xFF00) >> 8) as u8, e: (v & 0x00FF) as u8, ..self }
    }

    /// Sets H and L from a 16-bit value, high byte to H.
    pub fn with_hl(self, v: u16) -> (r: Self)
        ensures
            r == (SM83Snapshot { h: (v / 0x100) as u8, l: (v % 0x100) as u8, ..self }),
    {
        proof {
            crate::bits::lemma_u16_bytes();
        }
        SM83Snapshot { h: ((v & 0xFF00) >> 8) as u8, l: (v & 0x00FF) as u8, ..self }
    }

    pub fn with_data_bus(self, v: u8) -> (r: Self)
        ensures
            r == (SM83Snapshot { data_bus: v, ..self }),
    {
        SM83Snapshot { data_bus: v, ..self }
    }

    pub fn with_ir(self, v: u8) -> (r: Self)
        ensures
            r == (SM83Snapshot { ir: v, ..self }),
    {
        SM83Snapshot { ir: v, ..self }
    }

    pub fn with_ie(self, v: u8) -> (r: Self)
        ensures
            r == (SM83Snapshot { ie: v, ..self }),
    {
        SM83Snapshot { ie: v, ..self }
    }

    pub fn with_a(self, v: u8) -> (r: Self)
        ensures
            r == (SM83Snapshot { a: v, ..self }),
    {
        SM83Snapshot { a: v, ..self }
    }

    pub fn with_b(self, v: u8) -> (r: Self)
        ensures
            r == (SM83Snapshot { b: v, ..self }),
    {
        SM83Snapshot { b: v, ..self }
    }

    pub fn with_c(self, v: u8) -> (r: Self)
        ensures
            r == (SM83Snapshot { c: v, ..self }),
    {
        SM83Snapshot { c: v, ..self }
    }

    pub fn with_d(self, v: u8) -> (r: Self)
        ensures
            r == (SM83Snapshot { d: v, ..self }),
    {
        SM83Snapshot { d: v, ..self }
    }

    pub fn with_e(self, v: u8) -> (r: Self)
        ensures
            r == (SM83Snapshot { e: v, ..self }),
    {
        SM83Snapshot { e: v, ..self }
    }

    pub fn with_f(self, v: u8) -> (r: Self)
        ensures
            r == (SM83Snapshot { f: v, ..self }),
    {
        SM83Snapshot { f: v, ..self }
    }

    pub fn with_h(self, v: u8) -> (r: Self)
        ensures
            r == (SM83Snapshot { h: v, ..self }),
    {
        SM83Snapshot { h: v, ..self }
    }

    pub fn with_l(self, v: u8) -> (r: Self)
        ensures
            r == (SM83Snapshot { l: v, ..self }),
    {
        SM83Snapshot { l: v, ..self }
    }

    /// Compares two snapshots: Ok exactly when every field matches, and
    /// otherwise a text diff with one line for each mismatched field, naming
    /// the field and showing the two differing values in hexadecimal.
    #[verifier::rlimit(50)]
    #[verifier::spinoff_prover]
    pub fn compare(&self, other: &SM83Snapshot) -> (r: Result<(), String>)
        ensures
            r is Ok <==> *self == *other,
            r matches Err(m) ==> m@ == spec_compare_diff(*self, *other) && m@.len() > 0,
    {
        let mut error = String::new();
        let mut equal = true;
        let ghost d_address_bus = error@;
        if self.address_bus != other.address_bus {
            push_diff_u16(&mut error, "address_bus is not equal: ", self.address_bus, other.address_bus);
            equal = false;
        }
        proof {
            assert(error@ == spec_diff_address_bus(d_address_bus, *self, *other)) by {
                reveal(spec_diff_address_bus);
            };
        }
        let ghost d_data_bus = error@;
        if self.data_bus != other.data_bus {
            push_diff_u8(&mut error, "data_bus is not equal: ", self.data_bus, other.data_bus);
            equal = false;
        }
        proof {
            assert(error@ == spec_diff_data_bus(d_data_bus, *self, *other)) by {
                reveal(spec_diff_data_bus);
            };
        }
        let ghost d_ir = error@;
        if self.ir != other.ir {
            push_diff_u8(&mut error, "ir is not equal: ", self.ir, other.ir);
            equal = false;
        }
        proof {
            assert(error@ == spec_diff_ir(d_ir, *self, *other)) by {
                reveal(spec_diff_ir);
            };
        }
        let ghost d_ie = error@;
        if self.ie != other.ie {
            push_diff_u8(&mut error, "ie is not equal: ", self.ie, other.ie);
            equal = false;
        }
        proof {
            assert(error@ == spec_diff_ie(d_ie, *self, *other)) by {
                reveal(spec_diff_ie);
            };
        }
        let ghost d_a = error@;
        if self.a != other.a {
            push_diff_u8(&mut error, "a is not equal: ", self.a, other.a);
            equal = false;
        }
        proof {
            assert(error@ == spec_diff_a(d_a, *self, *other)) by {
                reveal(spec_diff_a);
            };
        }
        let ghost d_b = error@;
        if self.b != other.b {
            push_diff_u8(&mut error, "b is not equal: ", self.b, other.b);
            equal = false;
        }
        proof {
            assert(error@ == spec_diff_b(d_b, *self, *other)) by {
                reveal(spec_diff_b);
            };
        }
        let ghost d_c = error@;
        if self.c != other.c {
            push_diff_u8(&mut error, "c is not equal: ", self.c, other.c);
            equal = false;
        }
        proof {
            assert(error@ == spec_diff_c(d_c, *self, *other)) by {
                reveal(spec_diff_c);
            };
        }
        let ghost d_d = error@;
        if self.d != other.d {
            push_diff_u8(&mut error, "d is not equal: ", self.d, other.d);
            equal = false;
        }
        proof {
            assert(error@ == spec_diff_d(d_d, *self, *other)) by {
                reveal(spec_diff_d);
            };
        }
        let ghost d_e = error@;
        if self.e != other.e {
            push_diff_u8(&mut error, "e is not equal: ", self.e, other.e);
            equal = false;
        }
        proof {
            assert(error@ == spec_diff_e(d_e, *self, *other)) by {
                reveal(spec_diff_e);
            };
        }
        let ghost d_f = error@;
        if self.f != other.f {
            push_diff_u8(&mut error, "f is not equal: ", self.f, other.f);
            equal = false;
        }
        proof {
            assert(error@ == spec_diff_f(d_f, *self, *other)) by {
                reveal(spec_diff_f);
            };
        }
        let ghost d_h = error@;
        if self.h != other.h {
            push_diff_u8(&mut error, "h is not equal: ", self.h, other.h);
            equal = false;
        }
        proof {
            assert(error@ == spec_diff_h(d_h, *self, *other)) by {
                reveal(spec_diff_h);
            };
        }
        let ghost d_l = error@;
        if self.l != other.l {
            push_diff_u8(&mut error, "l is not equal: ", self.l, other.l);
            equal = false;
        }
        proof {
            assert(error@ == spec_diff_l(d_l, *self, *other)) by {
                reveal(spec_diff_l);
            };
        }
        let ghost d_sp = error@;
        if self.sp != other.sp {
            push_diff_u16(&mut error, "sp is not equal: ", self.sp, other.sp);
            equal = false;
        }
        proof {
            assert(error@ == spec_diff_sp(d_sp, *self, *other)) by {
                reveal(spec_diff_sp);
            };
        }
        let ghost d_pc = error@;
        if self.pc != other.pc {
            push_diff_u16(&mut error, "pc is not equal: ", self.pc, other.pc);
            equal = false;
        }
        proof {
            assert(error@ == spec_diff_pc(d_pc, *self, *other)) by {
                reveal(spec_diff_pc);
            };
        }
        let ghost d_ime = error@;
        if self.ime != other.ime {
            push_diff_bool(&mut error, "ime is not equal: ", self.ime, other.ime);
            equal = false;
        }
        proof {
            assert(error@ == spec_diff_ime(d_ime, *self, *other)) by {
                reveal(spec_diff_ime);
            };
        }
        proof {
            assert(error@ == spec_compare_diff(*self, *other)) by {
                reveal(spec_compare_diff);
            };
        }
        if equal {
            Ok(())
        } else {
            proof {
                lemma_compare_diff_nonempty(*self, *other);
            }
            Err(error)
        }
    }
}

/// One hexadecimal digit, lowercase.
pub open spec fn spec_hex_nibble(n: u8) -> Seq<char> {
    if n == 0 {
        "0"@
    } else if n == 1 {
        "1"@
    } else if n == 2 {
        "2"@
    } else if n == 3 {
        "3"@
    } else if n == 4 {
        "4"@
    } else if n == 5 {
        "5"@
    } else if n == 6 {
        "6"@
    } else if n == 7 {
        "7"@
    } else if n == 8 {
        "8"@
    } else if n == 9 {
        "9"@
    } else if n == 10 {
        "a"@
    } else if n == 11 {
        "b"@
    } else if n == 12 {
        "c"@
    } else if n == 13 {
        "d"@
    } else if n == 14 {
        "e"@
    } else {
        "f"@
    }
}

fn hex_nibble(n: u8) -> (r: &'static str)
    requires
        n < 16,
    ensures
        r@ == spec_hex_nibble(n),
{
    if n == 0 {
        "0"
    } else if n == 1 {
        "1"
    } else if n == 2 {
        "2"
    } else if n == 3 {
        "3"
    } else if n == 4 {
        "4"
    } else if n == 5 {
        "5"
    } else if n == 6 {
        "6"
    } else if n == 7 {
        "7"
    } else if n == 8 {
        "8"
    } else if n == 9 {
        "9"
    } else if n == 10 {
        "a"
    } else if n == 11 {
        "b"
    } else if n == 12 {
        "c"
    } else if n == 13 {
        "d"
    } else if n == 14 {
        "e"
    } else {
        "f"
    }
}

/// Appends a byte as two hexadecimal digits.
fn push_hex_u8(out: &mut String, v: u8)
    ensures
        final(out)@ == (old(out)@ + spec_hex_nibble((v / 16) as u8)) + spec_hex_nibble(
            (v % 16) as u8,
        ),
{
    out.append(hex_nibble(v / 16));
    out.append(hex_nibble(v % 16));
}

/// Appends a 16-bit word as four hexadecimal digits.
fn push_hex_u16(out: &mut String, v: u16)
    ensures
        final(out)@ == (((old(out)@ + spec_hex_nibble((v / 0x1000) as u8)) + spec_hex_nibble(
            ((v / 0x100) % 16) as u8,
        )) + spec_hex_nibble(((v / 16) % 16) as u8)) + spec_hex_nibble((v % 16) as u8),
{
    out.append(hex_nibble((v / 0x1000) as u8));
    out.append(hex_nibble(((v / 0x100) % 16) as u8));
    out.append(hex_nibble(((v / 16) % 16) as u8));
    out.append(hex_nibble((v % 16) as u8));
}


/// One diff line: the field name, the two values in hexadecimal, a newline.
pub open spec fn spec_diff_seg_u8(d: Seq<char>, name: Seq<char>, l: u8, r: u8) -> Seq<char> {
    ((((((d + name) + spec_hex_nibble((l / 16) as u8)) + spec_hex_nibble((l % 16) as u8))
        + " vs "@) + spec_hex_nibble((r / 16) as u8)) + spec_hex_nibble((r % 16) as u8)) + "\n"@
}

/// One diff line for a 16-bit field, four hexadecimal digits a side.
pub open spec fn spec_diff_seg_u16(d: Seq<char>, name: Seq<char>, l: u16, r: u16) -> Seq<char> {
    ((((((((((d + name) + spec_hex_nibble((l / 0x1000) as u8)) + spec_hex_nibble(
        ((l / 0x100) % 16) as u8,
    )) + spec_hex_nibble(((l / 16) % 16) as u8)) + spec_hex_nibble((l % 16) as u8)) + " vs "@)
        + spec_hex_nibble((r / 0x1000) as u8)) + spec_hex_nibble(((r / 0x100) % 16) as u8))
        + spec_hex_nibble(((r / 16) % 16) as u8)) + spec_hex_nibble((r % 16) as u8)) + "\n"@
}

/// One diff line for the IME field.
pub open spec fn spec_diff_seg_bool(d: Seq<char>, name: Seq<char>, l: bool, r: bool) -> Seq<char> {
    ((((d + name) + (if l {
        "true"@
    } else {
        "false"@
    })) + " vs "@) + (if r {
        "true"@
    } else {
        "false"@
    })) + "\n"@
}

/// Appends one diff line for a mismatched byte field.
fn push_diff_u8(error: &mut String, name: &str, l: u8, r: u8)
    ensures
        final(error)@ == spec_diff_seg_u8(old(error)@, name@, l, r),
{
    error.append(name);
    push_hex_u8(error, l);
    error.append(" vs ");
    push_hex_u8(error, r);
    error.append("\n");
}

/// Appends one diff line for a mismatched 16-bit field.
fn push_diff_u16(error: &mut String, name: &str, l: u16, r: u16)
    ensures
        final(error)@ == spec_diff_seg_u16(old(error)@, name@, l, r),
{
    error.append(name);
    push_hex_u16(error, l);
    error.append(" vs ");
    push_hex_u16(error, r);
    error.append("\n");
}

/// Appends one diff line for a mismatched boolean field.
fn push_diff_bool(error: &mut String, name: &str, l: bool, r: bool)
    ensures
        final(error)@ == spec_diff_seg_bool(old(error)@, name@, l, r),
{
    error.append(name);
    error.append(if l {
        "true"
    } else {
        "false"
    });
    error.append(" vs ");
    error.append(if r {
        "true"
    } else {
        "false"
    });
    error.append("\n");
}

/// The diff line for the `address_bus` field, appended when it mismatches.
#[verifier::opaque]
pub open spec fn spec_diff_address_bus(d: Seq<char>, x: SM83Snapshot, y: SM83Snapshot) -> Seq<char> {
    if x.address_bus != y.address_bus {
        spec_diff_seg_u16(d, "address_bus is not equal: "@, x.address_bus, y.address_bus)
    } else {
        d
    }
}

/// The diff line for the `data_bus` field, appended when it mismatches.
#[verifier::opaque]
pub open spec fn spec_diff_data_bus(d: Seq<char>, x: SM83Snapshot, y: SM83Snapshot) -> Seq<char> {
    if x.data_bus != y.data_bus {
        spec_diff_seg_u8(d, "data_bus is not equal: "@, x.data_bus, y.data_bus)
    } else {
        d
    }
}

/// The diff line for the `ir` field, appended when it mismatches.
#[verifier::opaque]
pub open spec fn spec_diff_ir(d: Seq<char>, x: SM83Snapshot, y: SM83Snapshot) -> Seq<char> {
    if x.ir != y.ir {
        spec_diff_seg_u8(d, "ir is not equal: "@, x.ir, y.ir)
    } else {
        d
    }
}

/// The diff line for the `ie` field, appended when it mismatches.
#[verifier::opaque]
pub open spec fn spec_diff_ie(d: Seq<char>, x: SM83Snapshot, y: SM83Snapshot) -> Seq<char> {
    if x.ie != y.ie {
        spec_diff_seg_u8(d, "ie is not equal: "@, x.ie, y.ie)
    } else {
        d
    }
}

/// The diff line for the `a` field, appended when it mismatches.
#[verifier::opaque]
pub open spec fn spec_diff_a(d: Seq<char>, x: SM83Snapshot, y: SM83Snapshot) -> Seq<char> {
    if x.a != y.a {
        spec_diff_seg_u8(d, "a is not equal: "@, x.a, y.a)
    } else {
        d
    }
}

/// The diff line for the `b` field, appended when it mismatches.
#[verifier::opaque]
pub open spec fn spec_diff_b(d: Seq<char>, x: SM83Snapshot, y: SM83Snapshot) -> Seq<char> {
    if x.b != y.b {
        spec_diff_seg_u8(d, "b is not equal: "@, x.b, y.b)
    } else {
        d
    }
}

/// The diff line for the `c` field, appended when it mismatches.
#[verifier::opaque]
pub open spec fn spec_diff_c(d: Seq<char>, x: SM83Snapshot, y: SM83Snapshot) -> Seq<char> {
    if x.c != y.c {
        spec_diff_seg_u8(d, "c is not equal: "@, x.c, y.c)
    } else {
        d
    }
}

/// The diff line for the `d` field, appended when it mismatches.
#[verifier::opaque]
pub open spec fn spec_diff_d(d: Seq<char>, x: SM83Snapshot, y: SM83Snapshot) -> Seq<char> {
    if x.d != y.d {
        spec_diff_seg_u8(d, "d is not equal: "@, x.d, y.d)
    } else {
        d
    }
}

/// The diff line for the `e` field, appended when it mismatches.
#[verifier::opaque]
pub open spec fn spec_diff_e(d: Seq<char>, x: SM83Snapshot, y: SM83Snapshot) -> Seq<char> {
    if x.e != y.e {
        spec_diff_seg_u8(d, "e is not equal: "@, x.e, y.e)
    } else {
        d
    }
}

/// The diff line for the `f` field, appended when it mismatches.
#[verifier::opaque]
pub open spec fn spec_diff_f(d: Seq<char>, x: SM83Snapshot, y: SM83Snapshot) -> Seq<char> {
    if x.f != y.f {
        spec_diff_seg_u8(d, "f is not equal: "@, x.f, y.f)
    } else {
        d
    }
}

/// The diff line for the `h` field, appended when it mismatches.
#[verifier::opaque]
pub open spec fn spec_diff_h(d: Seq<char>, x: SM83Snapshot, y: SM83Snapshot) -> Seq<char> {
    if x.h != y.h {
        spec_diff_seg_u8(d, "h is not equal: "@, x.h, y.h)
    } else {
        d
    }
}

/// The diff line for the `l` field, appended when it mismatches.
#[verifier::opaque]
pub open spec fn spec_diff_l(d: Seq<char>, x: SM83Snapshot, y: SM83Snapshot) -> Seq<char> {
    if x.l != y.l {
        spec_diff_seg_u8(d, "l is not equal: "@, x.l, y.l)
    } else {
        d
    }
}

/// The diff line for the `sp` field, appended when it mismatches.
#[verifier::opaque]
pub open spec fn spec_diff_sp(d: Seq<char>, x: SM83Snapshot, y: SM83Snapshot) -> Seq<char> {
    if x.sp != y.sp {
        spec_diff_seg_u16(d, "sp is not equal: "@, x.sp, y.sp)
    } else {
        d
    }
}

/// The diff line for the `pc` field, appended when it mismatches.
#[verifier::opaque]
pub open spec fn spec_diff_pc(d: Seq<char>, x: SM83Snapshot, y: SM83Snapshot) -> Seq<char> {
    if x.pc != y.pc {
        spec_diff_seg_u16(d, "pc is not equal: "@, x.pc, y.pc)
    } else {
        d
    }
}

/// The diff line for the `ime` field, appended when it mismatches.
#[verifier::opaque]
pub open spec fn spec_diff_ime(d: Seq<char>, x: SM83Snapshot, y: SM83Snapshot) -> Seq<char> {
    if x.ime != y.ime {
        spec_diff_seg_bool(d, "ime is not equal: "@, x.ime, y.ime)
    } else {
        d
    }
}

/// The diff text that `compare` returns for two snapshots: one line for
/// each mismatched field, in field order, naming the field and showing the
/// two differing values in fixed-width hexadecimal.
#[verifier::opaque]
pub open spec fn spec_compare_diff(x: SM83Snapshot, y: SM83Snapshot) -> Seq<char> {
    let d = Seq::<char>::empty();
    let d = spec_diff_address_bus(d, x, y);
    let d = spec_diff_data_bus(d, x, y);
    let d = spec_diff_ir(d, x, y);
    let d = spec_diff_ie(d, x, y);
    let d = spec_diff_a(d, x, y);
    let d = spec_diff_b(d, x, y);
    let d = spec_diff_c(d, x, y);
    let d = spec_diff_d(d, x, y);
    let d = spec_diff_e(d, x, y);
    let d = spec_diff_f(d, x, y);
    let d = spec_diff_h(d, x, y);
    let d = spec_diff_l(d, x, y);
    let d = spec_diff_sp(d, x, y);
    let d = spec_diff_pc(d, x, y);
    let d = spec_diff_ime(d, x, y);
    d
}

/// Two snapshots that differ anywhere produce a non-empty diff: the line
/// for a mismatched field always ends in a newline, and the later lines only
/// add to it.
proof fn lemma_compare_diff_nonempty(x: SM83Snapshot, y: SM83Snapshot)
    requires
        x != y,
    ensures
        spec_compare_diff(x, y).len() > 0,
{
    let d0 = Seq::<char>::empty();
    let d1 = spec_diff_address_bus(d0, x, y);
    assert(d1.len() >= d0.len() && (x.address_bus != y.address_bus ==> d1.len() > d0.len())) by {
        reveal(spec_diff_address_bus);
        reveal_strlit("\n");
    };
    let d2 = spec_diff_data_bus(d1, x, y);
    assert(d2.len() >= d1.len() && (x.data_bus != y.data_bus ==> d2.len() > d1.len())) by {
        reveal(spec_diff_data_bus);
        reveal_strlit("\n");
    };
    let d3 = spec_diff_ir(d2, x, y);
    assert(d3.len() >= d2.len() && (x.ir != y.ir ==> d3.len() > d2.len())) by {
        reveal(spec_diff_ir);
        reveal_strlit("\n");
    };
    let d4 = spec_diff_ie(d3, x, y);
    assert(d4.len() >= d3.len() && (x.ie != y.ie ==> d4.len() > d3.len())) by {
        reveal(spec_diff_ie);
        reveal_strlit("\n");
    };
    let d5 = spec_diff_a(d4, x, y);
    assert(d5.len() >= d4.len() && (x.a != y.a ==> d5.len() > d4.len())) by {
        reveal(spec_diff_a);
        reveal_strlit("\n");
    };
    let d6 = spec_diff_b(d5, x, y);
    assert(d6.len() >= d5.len() && (x.b != y.b ==> d6.len() > d5.len())) by {
        reveal(spec_diff_b);
        reveal_strlit("\n");
    };
    let d7 = spec_diff_c(d6, x, y);
    assert(d7.len() >= d6.len() && (x.c != y.c ==> d7.len() > d6.len())) by {
        reveal(spec_diff_c);
        reveal_strlit("\n");
    };
    let d8 = spec_diff_d(d7, x, y);
    assert(d8.len() >= d7.len() && (x.d != y.d ==> d8.len() > d7.len())) by {
        reveal(spec_diff_d);
        reveal_strlit("\n");
    };
    let d9 = spec_diff_e(d8, x, y);
    assert(d9.len() >= d8.len() && (x.e != y.e ==> d9.len() > d8.len())) by {
        reveal(spec_diff_e);
        reveal_strlit("\n");
    };
    let d10 = spec_diff_f(d9, x, y);
    assert(d10.len() >= d9.len() && (x.f != y.f ==> d10.len() > d9.len())) by {
        reveal(spec_diff_f);
        reveal_strlit("\n");
    };
    let d11 = spec_diff_h(d10, x, y);
    assert(d11.len() >= d10.len() && (x.h != y.h ==> d11.len() > d10.len())) by {
        reveal(spec_diff_h);
        reveal_strlit("\n");
    };
    let d12 = spec_diff_l(d11, x, y);
    assert(d12.len() >= d11.len() && (x.l != y.l ==> d12.len() > d11.len())) by {
        reveal(spec_diff_l);
        reveal_strlit("\n");
    };
    let d13 = spec_diff_sp(d12, x, y);
    assert(d13.len() >= d12.len() && (x.sp != y.sp ==> d13.len() > d12.len())) by {
        reveal(spec_diff_sp);
        reveal_strlit("\n");
    };
    let d14 = spec_diff_pc(d13, x, y);
    assert(d14.len() >= d13.len() && (x.pc != y.pc ==> d14.len() > d13.len())) by {
        reveal(spec_diff_pc);
        reveal_strlit("\n");
    };
    let d15 = spec_diff_ime(d14, x, y);
    assert(d15.len() >= d14.len() && (x.ime != y.ime ==> d15.len() > d14.len())) by {
        reveal(spec_diff_ime);
        reveal_strlit("\n");
    };
    assert(spec_compare_diff(x, y) == d15) by {
        reveal(spec_compare_diff);
    };
}

} // verus!
