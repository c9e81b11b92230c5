//! The increment/decrement unit: a 16-bit adder dedicated to address
//! arithmetic. It wraps modulo 2^16 and never touches flags.

use vstd::prelude::*;

verus! {

/// What the IDU computes when asked to increment: the successor modulo 2^16.
pub open spec fn spec_idu_increment(v: u16) -> u16 {
    if v == 0xFFFF {
        0
    } else {
        (v + 1) as u16
    }
}

/// What the IDU computes when asked to decrement: the predecessor modulo 2^16.
pub open spec fn spec_idu_decrement(v: u16) -> u16 {
    if v == 0 {
        0xFFFF
    } else {
        (v - 1) as u16
    }
}

pub struct IDU {}

impl IDU {
    pub fn increment(v: u16) -> (r: u16)
        ensures
            r == spec_idu_increment(v),
            r as int == (v as int + 1) % 0x10000,
    {
        if v == u16::MAX {
            0
        } else {
            v + 1
        }
    }

    pub fn decrement(v: u16) -> (r: u16)
        ensures
            r == spec_idu_decrement(v),
            r as int == (v as int + 0xFFFF) % 0x10000,
    {
        if v == 0 {
            u16::MAX
        } else {
            v - 1
        }
    }
}

/// Incrementing and decrementing are mutually inverse on every 16-bit value.
pub proof fn lemma_idu_round_trip(v: u16)
    ensures
        spec_idu_increment(spec_idu_decrement(v)) == v,
        spec_idu_decrement(spec_idu_increment(v)) == v,
{
}

} // verus!
