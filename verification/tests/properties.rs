use gbemulator::alu::ALU;
use gbemulator::cpu::SM83;
use gbemulator::idu::IDU;
use gbemulator::ram::RAM;
use gbemulator::registers::RegisterName;
use gbemulator::snapshot::SM83Snapshot;

const UNUSED_OPCODES: [u8; 11] = [
    0xD3, 0xDB, 0xDD, 0xE3, 0xE4, 0xEB, 0xEC, 0xED, 0xF4, 0xFC, 0xFD,
];

#[test]
fn test_every_base_opcode_cycle_count() {
    // Every recognized base opcode advances the cycle counter by one to six
    // cycles and leaves the low nibble of F zero; the eleven unused bytes
    // fail without touching anything.
    for op in 0..=255u8 {
        let mut ram = RAM::new();
        ram.set_at(0x0000, op).unwrap();
        let mut cpu = SM83::new();
        let snapshot = SM83Snapshot::new().with_sp(0x2000).with_hl(0x3000).with_f(0x50);
        cpu.load_snapshot(snapshot);
        cpu.fetch_cycle(&ram);
        let before = cpu.get_cycle_count();
        match cpu.next(&mut ram) {
            Ok(()) => {
                let delta = cpu.get_cycle_count() - before;
                assert!(
                    (1..=6).contains(&delta),
                    "opcode {:02X} took {} cycles",
                    op,
                    delta
                );
                assert_eq!(cpu.get_register(RegisterName::F) & 0x0F, 0);
            }
            Err(e) => {
                assert!(UNUSED_OPCODES.contains(&op), "opcode {:02X} rejected", op);
                assert_eq!(e.opcode, op);
            }
        }
    }
}

#[test]
fn test_every_cb_opcode_cycle_count() {
    // Every CB-prefixed opcode is recognized and takes two to four cycles.
    for cb in 0..=255u8 {
        let mut ram = RAM::new();
        ram.set_at(0x0000, 0xCB).unwrap();
        ram.set_at(0x0001, cb).unwrap();
        let mut cpu = SM83::new();
        let snapshot = SM83Snapshot::new().with_hl(0x3000).with_f(0x50);
        cpu.load_snapshot(snapshot);
        cpu.fetch_cycle(&ram);
        let before = cpu.get_cycle_count();
        cpu.next(&mut ram).unwrap();
        let delta = cpu.get_cycle_count() - before;
        assert!(
            (2..=4).contains(&delta),
            "CB opcode {:02X} took {} cycles",
            cb,
            delta
        );
        assert_eq!(cpu.get_register(RegisterName::F) & 0x0F, 0);
    }
}

#[test]
fn test_add_carry_iff_sum_reaches_256() {
    for a in (0..=255u16).step_by(17) {
        for b in (0..=255u16).step_by(13) {
            let (_, flags) = ALU::add(a as u8, b as u8);
            assert_eq!(flags & 0x10 != 0, a + b >= 256);
            assert_eq!(
                flags & 0x20 != 0,
                (a & 0x0F) + (b & 0x0F) >= 16
            );
        }
    }
}

#[test]
fn test_xor_self_all_values() {
    for v in 0..=255u8 {
        let (res, flags) = ALU::xor(v, v);
        assert_eq!(res, 0);
        assert_eq!(flags, 0x80);
    }
}

#[test]
fn test_test_bit_all_positions() {
    for v in [0x00u8, 0xFF, 0x96, 0x5A] {
        for bit in 0..8u8 {
            let flags = ALU::test_bit(v, bit);
            assert_eq!(flags & 0x80 != 0, v & (1 << bit) == 0);
            assert_eq!(flags & 0x20, 0x20);
            assert_eq!(flags & 0x40, 0);
        }
    }
}

#[test]
fn test_swap_self_inverse_all_values() {
    for v in 0..=255u8 {
        let (once, _) = ALU::swap_nibbles(v);
        let (twice, flags) = ALU::swap_nibbles(once);
        assert_eq!(twice, v);
        assert_eq!(flags, if v == 0 { 0x80 } else { 0x00 });
    }
}

#[test]
fn test_idu_round_trip_sampled() {
    for v in (0..=0xFFFFu32).step_by(251) {
        let v = v as u16;
        assert_eq!(IDU::increment(IDU::decrement(v)), v);
        assert_eq!(IDU::decrement(IDU::increment(v)), v);
    }
}

#[test]
fn test_add_16_signed_matches_wide_arithmetic() {
    for v in (0..=0xFFFFu32).step_by(997) {
        for e in (0..=255u16).step_by(29) {
            let v = v as u16;
            let e = e as u8;
            let sx: i32 = if e < 0x80 { e as i32 } else { e as i32 - 256 };
            let expected = ((v as i32 + sx).rem_euclid(0x10000)) as u16;
            assert_eq!(ALU::add_16_signed(v, e), expected);
        }
    }
}

#[test]
fn test_snapshot_round_trip_masked_f() {
    // A loaded snapshot reads back exactly, except that the low nibble of F
    // cannot survive the masking write.
    let s = SM83Snapshot::new().with_a(1).with_f(0x3C).with_pc(0x1234).with_ime(true);
    let mut cpu = SM83::new();
    cpu.load_snapshot(s);
    let back = cpu.to_snapshot();
    assert_eq!(back.f, 0x30);
    assert_eq!(back.pc, 0x1234);
    assert_eq!(back.a, 1);
    assert!(back.ime);
}
