use gbemulator::cpu::SM83;
use gbemulator::registers::RegisterName;
use gbemulator::snapshot::SM83Snapshot;

#[test]
fn test_load_from_snapshot() {
    // 8 bit. Every write to F masks its low nibble, so the loaded 8 reads
    // back as 0.
    let snapshot = SM83Snapshot::new()
        .with_address_bus(1)
        .with_data_bus(2)
        .with_a(3)
        .with_b(4)
        .with_c(5)
        .with_d(6)
        .with_e(7)
        .with_f(8)
        .with_h(9)
        .with_l(10)
        .with_sp(11)
        .with_pc(12);
    let mut cpu = SM83::new();
    cpu.load_snapshot(snapshot);
    assert_eq!(cpu.get_address_bus(), 1);
    assert_eq!(cpu.get_data_bus(), 2);
    assert_eq!(cpu.get_register(RegisterName::A), 3);
    assert_eq!(cpu.get_register(RegisterName::B), 4);
    assert_eq!(cpu.get_register(RegisterName::C), 5);
    assert_eq!(cpu.get_register(RegisterName::D), 6);
    assert_eq!(cpu.get_register(RegisterName::E), 7);
    assert_eq!(cpu.get_register(RegisterName::F), 0);
    assert_eq!(cpu.get_register(RegisterName::H), 9);
    assert_eq!(cpu.get_register(RegisterName::L), 10);
    assert_eq!(cpu.get_register(RegisterName::SP), 11);
    assert_eq!(cpu.get_register(RegisterName::PC), 12);

    // 16 bit. The F half of AF keeps only its high nibble.
    let snapshot = SM83Snapshot::new()
        .with_af(0x1234)
        .with_bc(0x5678)
        .with_de(0x9ABC)
        .with_hl(0xDEF0);
    let mut cpu = SM83::new();
    cpu.load_snapshot(snapshot);
    assert_eq!(cpu.get_register(RegisterName::AF), 0x1230);
    assert_eq!(cpu.get_register(RegisterName::BC), 0x5678);
    assert_eq!(cpu.get_register(RegisterName::DE), 0x9ABC);
    assert_eq!(cpu.get_register(RegisterName::HL), 0xDEF0);
}

#[test]
fn test_snapshot_round_trip() {
    // A snapshot whose F byte keeps its low nibble zero round-trips
    // exactly, PC included.
    let snapshot = SM83Snapshot::new()
        .with_address_bus(0x1234)
        .with_data_bus(0x56)
        .with_ir(0x78)
        .with_ie(0x9A)
        .with_af(0xBCD0)
        .with_bc(0x1122)
        .with_de(0x3344)
        .with_hl(0x5566)
        .with_sp(0x7788)
        .with_pc(0x99AA)
        .with_ime(true);
    let mut cpu = SM83::new();
    cpu.load_snapshot(snapshot);
    let back = cpu.to_snapshot();
    assert!(back.compare(&snapshot).is_ok());
    assert_eq!(back, snapshot);
}

#[test]
fn test_compare_reports_mismatches() {
    let a = SM83Snapshot::new().with_a(1).with_sp(0x1234);
    let b = SM83Snapshot::new().with_a(2).with_sp(0x1234);
    assert!(a.compare(&a).is_ok());
    let diff = a.compare(&b).unwrap_err();
    assert_eq!(diff, "a is not equal: 01 vs 02\n");
    let c = SM83Snapshot::new().with_pc(0xBEEF).with_ime(true);
    let diff = SM83Snapshot::new().compare(&c).unwrap_err();
    assert_eq!(
        diff,
        "pc is not equal: 0000 vs beef\nime is not equal: false vs true\n"
    );
}

#[test]
fn test_builders_touch_one_field() {
    let s = SM83Snapshot::new().with_b(0x42);
    assert_eq!(s.b, 0x42);
    assert_eq!(s.a, 0);
    assert_eq!(s.c, 0);
    assert_eq!(s.pc, 0);
    assert!(!s.ime);
    let s2 = s.with_hl(0xABCD);
    assert_eq!(s2.h, 0xAB);
    assert_eq!(s2.l, 0xCD);
    assert_eq!(s2.b, 0x42);
}
