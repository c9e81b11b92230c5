use gbemulator::cpu::SM83;
use gbemulator::ram::RAM;
use gbemulator::registers::RegisterName;
use gbemulator::snapshot::SM83Snapshot;

fn prepared(program: &[(u16, u8)], snapshot: SM83Snapshot) -> (SM83, RAM) {
    let mut ram = RAM::new();
    for (address, value) in program {
        ram.set_at(*address, *value).unwrap();
    }
    let mut cpu = SM83::new();
    cpu.load_snapshot(snapshot);
    cpu.fetch_cycle(&ram);
    (cpu, ram)
}

#[test]
fn test_ldabc() {
    let (mut cpu, mut ram) = prepared(
        &[(0x0000, 0x0A), (0x0001, 0xCD), (0x00AA, 0xEE)],
        SM83Snapshot::new().with_bc(0x00AA),
    );
    cpu.next(&mut ram).unwrap();
    assert_eq!(cpu.get_register(RegisterName::A), 0xEE);
    assert_eq!(cpu.get_register(RegisterName::IR), 0xCD);
    assert_eq!(cpu.get_cycle_count(), 2);
}

#[test]
fn test_lddea() {
    let (mut cpu, mut ram) = prepared(
        &[(0x0000, 0x12), (0x0001, 0xCD)],
        SM83Snapshot::new().with_a(0x99).with_de(0x0123),
    );
    cpu.next(&mut ram).unwrap();
    assert_eq!(ram.get_at(0x0123).unwrap(), 0x99);
    assert_eq!(cpu.get_cycle_count(), 2);
}

#[test]
fn test_ldhac() {
    let (mut cpu, mut ram) = prepared(
        &[(0x0000, 0xF2), (0x0001, 0xCD), (0xFF12, 0x34)],
        SM83Snapshot::new().with_bc(0x0012),
    );
    cpu.next(&mut ram).unwrap();
    assert_eq!(cpu.get_register(RegisterName::A), 0x34);
    assert_eq!(cpu.get_cycle_count(), 2);
}

#[test]
fn test_ldhan() {
    let (mut cpu, mut ram) = prepared(
        &[(0x0000, 0xF0), (0x0001, 0x47), (0x0002, 0xCD), (0xFF47, 0x56)],
        SM83Snapshot::new(),
    );
    cpu.next(&mut ram).unwrap();
    assert_eq!(cpu.get_register(RegisterName::A), 0x56);
    assert_eq!(cpu.get_register(RegisterName::PC), 0x03);
    assert_eq!(cpu.get_cycle_count(), 3);
}

#[test]
fn test_ldann() {
    let (mut cpu, mut ram) = prepared(
        &[(0x0000, 0xFA), (0x0001, 0x34), (0x0002, 0x12), (0x0003, 0xCD), (0x1234, 0x78)],
        SM83Snapshot::new(),
    );
    cpu.next(&mut ram).unwrap();
    assert_eq!(cpu.get_register(RegisterName::A), 0x78);
    assert_eq!(cpu.get_cycle_count(), 4);
}

#[test]
fn test_ldrrnn() {
    let (mut cpu, mut ram) = prepared(
        &[(0x0000, 0x11), (0x0001, 0xCD), (0x0002, 0xAB), (0x0003, 0x00)],
        SM83Snapshot::new(),
    );
    cpu.next(&mut ram).unwrap();
    assert_eq!(cpu.get_register(RegisterName::DE), 0xABCD);
    assert_eq!(cpu.get_cycle_count(), 3);
}

#[test]
fn test_ldsphl() {
    let (mut cpu, mut ram) = prepared(
        &[(0x0000, 0xF9), (0x0001, 0xCD)],
        SM83Snapshot::new().with_hl(0x1234),
    );
    cpu.next(&mut ram).unwrap();
    assert_eq!(cpu.get_register(RegisterName::SP), 0x1234);
    assert_eq!(cpu.get_cycle_count(), 2);
}

#[test]
fn test_sub_r() {
    let (mut cpu, mut ram) = prepared(
        &[(0x0000, 0x90), (0x0001, 0xCD)],
        SM83Snapshot::new().with_a(0x3E).with_b(0x3E),
    );
    cpu.next(&mut ram).unwrap();
    assert_eq!(cpu.get_register(RegisterName::A), 0x00);
    assert_eq!(cpu.get_register(RegisterName::F), 0xC0);
    assert_eq!(cpu.get_cycle_count(), 1);
}

#[test]
fn test_and_r() {
    let (mut cpu, mut ram) = prepared(
        &[(0x0000, 0xA1), (0x0001, 0xCD)],
        SM83Snapshot::new().with_a(0x5A).with_bc(0x0038),
    );
    cpu.next(&mut ram).unwrap();
    assert_eq!(cpu.get_register(RegisterName::A), 0x18);
    assert_eq!(cpu.get_register(RegisterName::F), 0x20);
    assert_eq!(cpu.get_cycle_count(), 1);
}

#[test]
fn test_or_r() {
    let (mut cpu, mut ram) = prepared(
        &[(0x0000, 0xB0), (0x0001, 0xCD)],
        SM83Snapshot::new().with_a(0x5A).with_b(0x0F),
    );
    cpu.next(&mut ram).unwrap();
    assert_eq!(cpu.get_register(RegisterName::A), 0x5F);
    assert_eq!(cpu.get_register(RegisterName::F), 0x00);
    assert_eq!(cpu.get_cycle_count(), 1);
}

#[test]
fn test_cp_n() {
    let (mut cpu, mut ram) = prepared(
        &[(0x0000, 0xFE), (0x0001, 0x40), (0x0002, 0xCD)],
        SM83Snapshot::new().with_a(0x3E),
    );
    cpu.next(&mut ram).unwrap();
    // The accumulator is untouched; the flags show the borrow.
    assert_eq!(cpu.get_register(RegisterName::A), 0x3E);
    assert_eq!(cpu.get_register(RegisterName::F), 0x50);
    assert_eq!(cpu.get_cycle_count(), 2);
}

#[test]
fn test_inc_hl_memory() {
    let (mut cpu, mut ram) = prepared(
        &[(0x0000, 0x34), (0x0001, 0xCD), (0x0040, 0x0F)],
        SM83Snapshot::new().with_hl(0x0040),
    );
    cpu.next(&mut ram).unwrap();
    assert_eq!(ram.get_at(0x0040).unwrap(), 0x10);
    assert_eq!(cpu.get_register(RegisterName::F), 0x20);
    assert_eq!(cpu.get_cycle_count(), 3);
}

#[test]
fn test_dec_r() {
    let (mut cpu, mut ram) = prepared(
        &[(0x0000, 0x05), (0x0001, 0xCD)],
        SM83Snapshot::new().with_b(0x01),
    );
    cpu.next(&mut ram).unwrap();
    assert_eq!(cpu.get_register(RegisterName::B), 0x00);
    assert_eq!(cpu.get_register(RegisterName::F), 0xC0);
    assert_eq!(cpu.get_cycle_count(), 1);
}

#[test]
fn test_inc_rr() {
    let (mut cpu, mut ram) = prepared(
        &[(0x0000, 0x23), (0x0001, 0xCD)],
        SM83Snapshot::new().with_hl(0x00FF).with_f(0xF0),
    );
    cpu.next(&mut ram).unwrap();
    // The IDU never touches flags.
    assert_eq!(cpu.get_register(RegisterName::HL), 0x0100);
    assert_eq!(cpu.get_register(RegisterName::F), 0xF0);
    assert_eq!(cpu.get_cycle_count(), 2);
}

#[test]
fn test_dec_rr() {
    let (mut cpu, mut ram) = prepared(
        &[(0x0000, 0x0B), (0x0001, 0xCD)],
        SM83Snapshot::new().with_bc(0x0000),
    );
    cpu.next(&mut ram).unwrap();
    assert_eq!(cpu.get_register(RegisterName::BC), 0xFFFF);
    assert_eq!(cpu.get_cycle_count(), 2);
}

#[test]
fn test_jp_cc_nn() {
    // Taken: JP NZ with Z clear.
    let (mut cpu, mut ram) = prepared(
        &[(0x0000, 0xC2), (0x0001, 0x34), (0x0002, 0x12), (0x1234, 0xCD)],
        SM83Snapshot::new().with_f(0x00),
    );
    cpu.next(&mut ram).unwrap();
    assert_eq!(cpu.get_register(RegisterName::PC), 0x1235);
    assert_eq!(cpu.get_cycle_count(), 4);

    // Not taken: JP NZ with Z set.
    let (mut cpu, mut ram) = prepared(
        &[(0x0000, 0xC2), (0x0001, 0x34), (0x0002, 0x12), (0x0003, 0xBB)],
        SM83Snapshot::new().with_f(0x80),
    );
    cpu.next(&mut ram).unwrap();
    assert_eq!(cpu.get_register(RegisterName::PC), 0x04);
    assert_eq!(cpu.get_register(RegisterName::IR), 0xBB);
    assert_eq!(cpu.get_cycle_count(), 3);
}

#[test]
fn test_jp_hl() {
    let (mut cpu, mut ram) = prepared(
        &[(0x0000, 0xE9), (0x2000, 0xCD)],
        SM83Snapshot::new().with_hl(0x2000),
    );
    cpu.next(&mut ram).unwrap();
    assert_eq!(cpu.get_register(RegisterName::PC), 0x2001);
    assert_eq!(cpu.get_cycle_count(), 1);
}

#[test]
fn test_ret_cc() {
    // Taken: RET NZ with Z clear.
    let (mut cpu, mut ram) = prepared(
        &[(0x0000, 0xC0), (0x0100, 0x10), (0x0101, 0x20), (0x2010, 0xCD)],
        SM83Snapshot::new().with_sp(0x0100),
    );
    cpu.next(&mut ram).unwrap();
    assert_eq!(cpu.get_register(RegisterName::PC), 0x2011);
    assert_eq!(cpu.get_register(RegisterName::SP), 0x0102);
    assert_eq!(cpu.get_cycle_count(), 5);

    // Not taken: RET NZ with Z set.
    let (mut cpu, mut ram) = prepared(
        &[(0x0000, 0xC0), (0x0001, 0xBB)],
        SM83Snapshot::new().with_sp(0x0100).with_f(0x80),
    );
    cpu.next(&mut ram).unwrap();
    assert_eq!(cpu.get_register(RegisterName::PC), 0x02);
    assert_eq!(cpu.get_register(RegisterName::SP), 0x0100);
    assert_eq!(cpu.get_cycle_count(), 2);
}

#[test]
fn test_cpl() {
    let (mut cpu, mut ram) = prepared(
        &[(0x0000, 0x2F), (0x0001, 0xCD)],
        SM83Snapshot::new().with_a(0x5A),
    );
    cpu.next(&mut ram).unwrap();
    assert_eq!(cpu.get_register(RegisterName::A), 0xA5);
    assert_eq!(cpu.get_register(RegisterName::F), 0x60);
    assert_eq!(cpu.get_cycle_count(), 1);
}

#[test]
fn test_rlca() {
    // The accumulator rotate forces Z to zero, unlike its CB twin.
    let (mut cpu, mut ram) = prepared(
        &[(0x0000, 0x07), (0x0001, 0xCD)],
        SM83Snapshot::new().with_a(0x85),
    );
    cpu.next(&mut ram).unwrap();
    assert_eq!(cpu.get_register(RegisterName::A), 0x0B);
    assert_eq!(cpu.get_register(RegisterName::F), 0x10);
    assert_eq!(cpu.get_cycle_count(), 1);
}

#[test]
fn test_cb_rlc_hl() {
    let (mut cpu, mut ram) = prepared(
        &[(0x0000, 0xCB), (0x0001, 0x06), (0x0002, 0xCD), (0x0040, 0x85)],
        SM83Snapshot::new().with_hl(0x0040),
    );
    cpu.next(&mut ram).unwrap();
    assert_eq!(ram.get_at(0x0040).unwrap(), 0x0B);
    assert_eq!(cpu.get_register(RegisterName::F), 0x10);
    assert_eq!(cpu.get_cycle_count(), 4);
}

#[test]
fn test_cb_bit_b_hl() {
    let (mut cpu, mut ram) = prepared(
        &[(0x0000, 0xCB), (0x0001, 0x46), (0x0002, 0xCD), (0x0040, 0x01)],
        SM83Snapshot::new().with_hl(0x0040),
    );
    cpu.next(&mut ram).unwrap();
    // Bit 0 is set, so Z stays clear; H is always set.
    assert_eq!(cpu.get_register(RegisterName::F), 0x20);
    assert_eq!(cpu.get_cycle_count(), 3);
}

#[test]
fn test_cb_res_b_r() {
    let (mut cpu, mut ram) = prepared(
        &[(0x0000, 0xCB), (0x0001, 0xB8), (0x0002, 0xCD)],
        SM83Snapshot::new().with_b(0xFF),
    );
    cpu.next(&mut ram).unwrap();
    assert_eq!(cpu.get_register(RegisterName::B), 0x7F);
    assert_eq!(cpu.get_cycle_count(), 2);
}

#[test]
fn test_ldhlm_a() {
    let (mut cpu, mut ram) = prepared(
        &[(0x0000, 0x32), (0x0001, 0xCD)],
        SM83Snapshot::new().with_a(0x42).with_hl(0x0050),
    );
    cpu.next(&mut ram).unwrap();
    assert_eq!(ram.get_at(0x0050).unwrap(), 0x42);
    assert_eq!(cpu.get_register(RegisterName::HL), 0x004F);
    assert_eq!(cpu.get_cycle_count(), 2);
}

#[test]
fn test_adc_r_with_carry() {
    let (mut cpu, mut ram) = prepared(
        &[(0x0000, 0x88), (0x0001, 0xCD)],
        SM83Snapshot::new().with_a(0x01).with_b(0x01).with_f(0x10),
    );
    cpu.next(&mut ram).unwrap();
    assert_eq!(cpu.get_register(RegisterName::A), 0x03);
    assert_eq!(cpu.get_register(RegisterName::F), 0x00);
    assert_eq!(cpu.get_cycle_count(), 1);
}

#[test]
fn test_jr_e_unconditional() {
    let (mut cpu, mut ram) = prepared(
        &[(0x0000, 0x18), (0x0001, 0x05), (0x0007, 0xCD)],
        SM83Snapshot::new(),
    );
    cpu.next(&mut ram).unwrap();
    assert_eq!(cpu.get_register(RegisterName::PC), 0x0008);
    assert_eq!(cpu.get_register(RegisterName::IR), 0xCD);
    assert_eq!(cpu.get_cycle_count(), 3);
}
