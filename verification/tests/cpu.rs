use gbemulator::cpu::SM83;
use gbemulator::ram::RAM;
use gbemulator::registers::RegisterName;
use gbemulator::snapshot::SM83Snapshot;

fn reg(cpu: &SM83, name: RegisterName) -> u16 {
    cpu.get_register(name)
}

#[test]
fn test_ldrn() {
    let mut ram = RAM::new();
    ram.set_at(0x0000, 0x06).unwrap(); // LD B,n
    ram.set_at(0x0001, 0xAB).unwrap();
    ram.set_at(0x0002, 0xCD).unwrap();
    let mut cpu = SM83::new();
    cpu.fetch_cycle(&ram);
    assert_eq!(cpu.get_data_bus(), 0x06);
    assert_eq!(reg(&cpu, RegisterName::IR), 0x06);
    assert_eq!(reg(&cpu, RegisterName::PC), 0x01);
    assert_eq!(reg(&cpu, RegisterName::B), 0x00);
    assert_eq!(cpu.get_cycle_count(), 0);
    cpu.next(&mut ram).unwrap();
    assert_eq!(cpu.get_data_bus(), 0xCD);
    assert_eq!(reg(&cpu, RegisterName::IR), 0xCD);
    assert_eq!(reg(&cpu, RegisterName::PC), 0x03);
    assert_eq!(reg(&cpu, RegisterName::B), 0xAB);
    assert_eq!(cpu.get_cycle_count(), 2);
}

#[test]
fn test_ldr_r() {
    let mut ram = RAM::new();
    ram.set_at(0x0000, 0x0E).unwrap(); // LD C,n
    ram.set_at(0x0001, 0xAB).unwrap();
    ram.set_at(0x0002, 0x41).unwrap(); // LD B,C
    ram.set_at(0x0003, 0xCD).unwrap();
    let mut cpu = SM83::new();
    cpu.fetch_cycle(&ram);
    cpu.next(&mut ram).unwrap();
    assert_eq!(reg(&cpu, RegisterName::C), 0xAB);
    assert_eq!(reg(&cpu, RegisterName::B), 0x00);
    assert_eq!(cpu.get_cycle_count(), 2);
    cpu.next(&mut ram).unwrap();
    assert_eq!(reg(&cpu, RegisterName::IR), 0xCD);
    assert_eq!(reg(&cpu, RegisterName::PC), 0x04);
    assert_eq!(reg(&cpu, RegisterName::C), 0xAB);
    assert_eq!(reg(&cpu, RegisterName::B), 0xAB);
    assert_eq!(cpu.get_cycle_count(), 3);
}

#[test]
fn test_add_r() {
    // ADD B with A=0x0F, B=0x01: half-carry only.
    let mut ram = RAM::new();
    ram.set_at(0x0000, 0x80).unwrap(); // ADD B
    ram.set_at(0x0001, 0xCD).unwrap();
    let snapshot = SM83Snapshot::new().with_a(0x0F).with_b(0x01);
    let mut cpu = SM83::new();
    cpu.load_snapshot(snapshot);
    cpu.fetch_cycle(&ram);
    cpu.next(&mut ram).unwrap();
    assert_eq!(reg(&cpu, RegisterName::A), 0x10);
    assert_eq!(reg(&cpu, RegisterName::F), 0x20);
    assert_eq!(reg(&cpu, RegisterName::PC), 0x02);
    assert_eq!(reg(&cpu, RegisterName::IR), 0xCD);
    assert_eq!(cpu.get_cycle_count(), 1);
}

#[test]
fn test_push_rr() {
    // PUSH HL with HL=0x00AA, SP=0x00AA, memory zeroed.
    let mut ram = RAM::new();
    ram.set_at(0x0000, 0xE5).unwrap(); // PUSH HL
    ram.set_at(0x0001, 0xCD).unwrap();
    let snapshot = SM83Snapshot::new().with_hl(0x00AA).with_sp(0x00AA);
    let mut cpu = SM83::new();
    cpu.load_snapshot(snapshot);
    cpu.fetch_cycle(&ram);
    cpu.next(&mut ram).unwrap();
    assert_eq!(reg(&cpu, RegisterName::SP), 0x00A8);
    assert_eq!(ram.get_at(0x00A9).unwrap(), 0x00);
    assert_eq!(ram.get_at(0x00A8).unwrap(), 0xAA);
    assert_eq!(reg(&cpu, RegisterName::PC), 0x02);
    assert_eq!(reg(&cpu, RegisterName::IR), 0xCD);
    assert_eq!(cpu.get_cycle_count(), 4);
}

#[test]
fn test_pop_rr() {
    let mut ram = RAM::new();
    ram.set_at(0x0000, 0xE1).unwrap(); // POP HL
    ram.set_at(0x0001, 0xCD).unwrap();
    ram.set_at(0x00A8, 0xAA).unwrap();
    ram.set_at(0x00A9, 0x00).unwrap();
    let snapshot = SM83Snapshot::new().with_sp(0x00A8);
    let mut cpu = SM83::new();
    cpu.load_snapshot(snapshot);
    cpu.fetch_cycle(&ram);
    cpu.next(&mut ram).unwrap();
    assert_eq!(reg(&cpu, RegisterName::HL), 0x00AA);
    assert_eq!(reg(&cpu, RegisterName::SP), 0x00AA);
    assert_eq!(cpu.get_cycle_count(), 3);
}

#[test]
fn test_daa() {
    // DAA after ADD 0x38 + 0x45 left A=0x7D with clear flags.
    let mut ram = RAM::new();
    ram.set_at(0x0000, 0x27).unwrap(); // DAA
    ram.set_at(0x0001, 0xCD).unwrap();
    let snapshot = SM83Snapshot::new().with_a(0x7D).with_f(0x00);
    let mut cpu = SM83::new();
    cpu.load_snapshot(snapshot);
    cpu.fetch_cycle(&ram);
    cpu.next(&mut ram).unwrap();
    assert_eq!(reg(&cpu, RegisterName::A), 0x83);
    assert_eq!(reg(&cpu, RegisterName::F), 0x00);
    assert_eq!(reg(&cpu, RegisterName::PC), 0x02);
    assert_eq!(reg(&cpu, RegisterName::IR), 0xCD);
    assert_eq!(cpu.get_cycle_count(), 1);
}

#[test]
fn test_jr_cc_e_taken() {
    // JR NZ,-3 with Z clear: the branch lands three bytes back.
    let mut ram = RAM::new();
    ram.set_at(0x0008, 0x20).unwrap(); // JR NZ,e
    ram.set_at(0x0009, 0xFD).unwrap();
    ram.set_at(0x0007, 0xCD).unwrap();
    let snapshot = SM83Snapshot::new().with_f(0x00).with_pc(0x0008);
    let mut cpu = SM83::new();
    cpu.load_snapshot(snapshot);
    cpu.fetch_cycle(&ram);
    assert_eq!(reg(&cpu, RegisterName::PC), 0x09);
    cpu.next(&mut ram).unwrap();
    assert_eq!(reg(&cpu, RegisterName::PC), 0x08);
    assert_eq!(reg(&cpu, RegisterName::IR), 0xCD);
    assert_eq!(cpu.get_cycle_count(), 3);
}

#[test]
fn test_jr_cc_e_not_taken() {
    // JR NZ,-3 with Z set: fall through.
    let mut ram = RAM::new();
    ram.set_at(0x0008, 0x20).unwrap(); // JR NZ,e
    ram.set_at(0x0009, 0xFD).unwrap();
    ram.set_at(0x000A, 0xBB).unwrap();
    let snapshot = SM83Snapshot::new().with_f(0x80).with_pc(0x0008);
    let mut cpu = SM83::new();
    cpu.load_snapshot(snapshot);
    cpu.fetch_cycle(&ram);
    cpu.next(&mut ram).unwrap();
    assert_eq!(reg(&cpu, RegisterName::PC), 0x0B);
    assert_eq!(reg(&cpu, RegisterName::IR), 0xBB);
    assert_eq!(cpu.get_cycle_count(), 2);
}

#[test]
fn test_call_nn_then_ret() {
    // CALL 0xAABB pushes the return address, RET pops it back.
    let mut ram = RAM::new();
    ram.set_at(0x0000, 0xCD).unwrap(); // CALL nn
    ram.set_at(0x0001, 0xBB).unwrap();
    ram.set_at(0x0002, 0xAA).unwrap();
    ram.set_at(0x0003, 0xDD).unwrap();
    ram.set_at(0xAABB, 0xC9).unwrap(); // RET
    let snapshot = SM83Snapshot::new().with_sp(0x1234);
    let mut cpu = SM83::new();
    cpu.load_snapshot(snapshot);
    cpu.fetch_cycle(&ram);
    cpu.next(&mut ram).unwrap();
    assert_eq!(reg(&cpu, RegisterName::PC), 0xAABC);
    assert_eq!(reg(&cpu, RegisterName::IR), 0xC9);
    assert_eq!(reg(&cpu, RegisterName::SP), 0x1232);
    assert_eq!(ram.get_at(0x1233).unwrap(), 0x00);
    assert_eq!(ram.get_at(0x1232).unwrap(), 0x03);
    assert_eq!(cpu.get_cycle_count(), 6);
    cpu.next(&mut ram).unwrap();
    assert_eq!(reg(&cpu, RegisterName::PC), 0x0004);
    assert_eq!(reg(&cpu, RegisterName::IR), 0xDD);
    assert_eq!(reg(&cpu, RegisterName::SP), 0x1234);
    assert_eq!(cpu.get_cycle_count(), 10);
}

#[test]
fn test_ldhln() {
    // LD (HL),n stores the immediate at the address in HL.
    let mut ram = RAM::new();
    ram.set_at(0x0000, 0x36).unwrap(); // LD (HL),n
    ram.set_at(0x0001, 0xEE).unwrap();
    ram.set_at(0x0002, 0xCD).unwrap();
    let snapshot = SM83Snapshot::new().with_hl(0x000A);
    let mut cpu = SM83::new();
    cpu.load_snapshot(snapshot);
    cpu.fetch_cycle(&ram);
    cpu.next(&mut ram).unwrap();
    assert_eq!(ram.get_at(0x000A).unwrap(), 0xEE);
    assert_eq!(reg(&cpu, RegisterName::PC), 0x03);
    assert_eq!(reg(&cpu, RegisterName::IR), 0xCD);
    assert_eq!(cpu.get_cycle_count(), 3);
}

#[test]
fn test_ldahlp() {
    // LD A,(HL+) reads through HL and post-increments it.
    let mut ram = RAM::new();
    ram.set_at(0x0000, 0x2A).unwrap(); // LD A,(HL+)
    ram.set_at(0x0001, 0xCD).unwrap();
    ram.set_at(0x0040, 0x77).unwrap();
    let snapshot = SM83Snapshot::new().with_hl(0x0040);
    let mut cpu = SM83::new();
    cpu.load_snapshot(snapshot);
    cpu.fetch_cycle(&ram);
    cpu.next(&mut ram).unwrap();
    assert_eq!(reg(&cpu, RegisterName::A), 0x77);
    assert_eq!(reg(&cpu, RegisterName::HL), 0x0041);
    assert_eq!(cpu.get_cycle_count(), 2);
}

#[test]
fn test_inc_r_keeps_carry() {
    // INC B derives Z and H but keeps the caller's carry flag.
    let mut ram = RAM::new();
    ram.set_at(0x0000, 0x04).unwrap(); // INC B
    ram.set_at(0x0001, 0xCD).unwrap();
    let snapshot = SM83Snapshot::new().with_b(0xFF).with_f(0x10);
    let mut cpu = SM83::new();
    cpu.load_snapshot(snapshot);
    cpu.fetch_cycle(&ram);
    cpu.next(&mut ram).unwrap();
    assert_eq!(reg(&cpu, RegisterName::B), 0x00);
    assert_eq!(reg(&cpu, RegisterName::F), 0xB0);
    assert_eq!(cpu.get_cycle_count(), 1);
}

#[test]
fn test_xor_a_self() {
    // XOR A clears the accumulator and sets only Z.
    let mut ram = RAM::new();
    ram.set_at(0x0000, 0xAF).unwrap(); // XOR A
    ram.set_at(0x0001, 0xCD).unwrap();
    let snapshot = SM83Snapshot::new().with_a(0x5A).with_f(0x70);
    let mut cpu = SM83::new();
    cpu.load_snapshot(snapshot);
    cpu.fetch_cycle(&ram);
    cpu.next(&mut ram).unwrap();
    assert_eq!(reg(&cpu, RegisterName::A), 0x00);
    assert_eq!(reg(&cpu, RegisterName::F), 0x80);
    assert_eq!(cpu.get_cycle_count(), 1);
}

#[test]
fn test_cb_swap_r() {
    // CB SWAP B exchanges the nibbles of B in two cycles.
    let mut ram = RAM::new();
    ram.set_at(0x0000, 0xCB).unwrap();
    ram.set_at(0x0001, 0x30).unwrap(); // SWAP B
    ram.set_at(0x0002, 0xCD).unwrap();
    let snapshot = SM83Snapshot::new().with_b(0xAB);
    let mut cpu = SM83::new();
    cpu.load_snapshot(snapshot);
    cpu.fetch_cycle(&ram);
    cpu.next(&mut ram).unwrap();
    assert_eq!(reg(&cpu, RegisterName::B), 0xBA);
    assert_eq!(reg(&cpu, RegisterName::F), 0x00);
    assert_eq!(reg(&cpu, RegisterName::PC), 0x03);
    assert_eq!(cpu.get_cycle_count(), 2);
}

#[test]
fn test_cb_bit_b_r() {
    // CB BIT 7,B sets Z when the bit is clear and H always.
    let mut ram = RAM::new();
    ram.set_at(0x0000, 0xCB).unwrap();
    ram.set_at(0x0001, 0x78).unwrap(); // BIT 7,B
    ram.set_at(0x0002, 0xCD).unwrap();
    let snapshot = SM83Snapshot::new().with_b(0x00).with_f(0x10);
    let mut cpu = SM83::new();
    cpu.load_snapshot(snapshot);
    cpu.fetch_cycle(&ram);
    cpu.next(&mut ram).unwrap();
    assert_eq!(reg(&cpu, RegisterName::F), 0xB0);
    assert_eq!(cpu.get_cycle_count(), 2);
}

#[test]
fn test_cb_set_b_hl() {
    // CB SET 0,(HL) raises the bit in memory in four cycles.
    let mut ram = RAM::new();
    ram.set_at(0x0000, 0xCB).unwrap();
    ram.set_at(0x0001, 0xC6).unwrap(); // SET 0,(HL)
    ram.set_at(0x0002, 0xCD).unwrap();
    ram.set_at(0x0040, 0x06).unwrap();
    let snapshot = SM83Snapshot::new().with_hl(0x0040);
    let mut cpu = SM83::new();
    cpu.load_snapshot(snapshot);
    cpu.fetch_cycle(&ram);
    cpu.next(&mut ram).unwrap();
    assert_eq!(ram.get_at(0x0040).unwrap(), 0x07);
    assert_eq!(cpu.get_cycle_count(), 4);
}

#[test]
fn test_ldhl_spe() {
    // LD HL,SP+e with a positive offset: flags come from the low-byte add.
    let mut ram = RAM::new();
    ram.set_at(0x0000, 0xF8).unwrap(); // LD HL,SP+e
    ram.set_at(0x0001, 0x85).unwrap();
    ram.set_at(0x0002, 0xCD).unwrap();
    let snapshot = SM83Snapshot::new().with_sp(0x00AA);
    let mut cpu = SM83::new();
    cpu.load_snapshot(snapshot);
    cpu.fetch_cycle(&ram);
    cpu.next(&mut ram).unwrap();
    assert_eq!(reg(&cpu, RegisterName::HL), 0x002F);
    assert_eq!(reg(&cpu, RegisterName::SP), 0x00AA);
    assert_eq!(cpu.get_cycle_count(), 3);
}

#[test]
fn test_add_hl_rr() {
    // ADD HL,BC keeps Z, clears N, and carries between the byte adds.
    let mut ram = RAM::new();
    ram.set_at(0x0000, 0x09).unwrap(); // ADD HL,BC
    ram.set_at(0x0001, 0xCD).unwrap();
    let snapshot = SM83Snapshot::new().with_hl(0x0FFF).with_bc(0x0001).with_f(0x80);
    let mut cpu = SM83::new();
    cpu.load_snapshot(snapshot);
    cpu.fetch_cycle(&ram);
    cpu.next(&mut ram).unwrap();
    assert_eq!(reg(&cpu, RegisterName::HL), 0x1000);
    assert_eq!(reg(&cpu, RegisterName::F), 0xA0);
    assert_eq!(cpu.get_cycle_count(), 2);
}

#[test]
fn test_di_and_ei() {
    // DI clears IME at once; EI raises it only at the start of the
    // instruction after the next one.
    let mut ram = RAM::new();
    ram.set_at(0x0000, 0xFB).unwrap(); // EI
    ram.set_at(0x0001, 0x00).unwrap(); // NOP
    ram.set_at(0x0002, 0xF3).unwrap(); // DI
    ram.set_at(0x0003, 0x00).unwrap();
    let mut cpu = SM83::new();
    cpu.fetch_cycle(&ram);
    cpu.next(&mut ram).unwrap(); // EI retires; IME still low
    assert!(!cpu.interrupt_enabled());
    cpu.next(&mut ram).unwrap(); // NOP begins; the pending EI commits
    assert!(cpu.interrupt_enabled());
    cpu.next(&mut ram).unwrap(); // DI
    assert!(!cpu.interrupt_enabled());
}

#[test]
fn test_reti_sets_ime() {
    let mut ram = RAM::new();
    ram.set_at(0x0000, 0xD9).unwrap(); // RETI
    ram.set_at(0x0010, 0x00).unwrap();
    ram.set_at(0x0100, 0x10).unwrap();
    ram.set_at(0x0101, 0x00).unwrap();
    let snapshot = SM83Snapshot::new().with_sp(0x0100);
    let mut cpu = SM83::new();
    cpu.load_snapshot(snapshot);
    cpu.fetch_cycle(&ram);
    cpu.next(&mut ram).unwrap();
    assert!(cpu.interrupt_enabled());
    assert_eq!(reg(&cpu, RegisterName::PC), 0x0011);
    assert_eq!(reg(&cpu, RegisterName::SP), 0x0102);
    assert_eq!(cpu.get_cycle_count(), 4);
}

#[test]
fn test_rst_n() {
    let mut ram = RAM::new();
    ram.set_at(0x0000, 0xEF).unwrap(); // RST 0x28
    ram.set_at(0x0028, 0xCD).unwrap();
    let snapshot = SM83Snapshot::new().with_sp(0x0200);
    let mut cpu = SM83::new();
    cpu.load_snapshot(snapshot);
    cpu.fetch_cycle(&ram);
    cpu.next(&mut ram).unwrap();
    assert_eq!(reg(&cpu, RegisterName::PC), 0x0029);
    assert_eq!(reg(&cpu, RegisterName::IR), 0xCD);
    assert_eq!(reg(&cpu, RegisterName::SP), 0x01FE);
    assert_eq!(ram.get_at(0x01FF).unwrap(), 0x00);
    assert_eq!(ram.get_at(0x01FE).unwrap(), 0x01);
    assert_eq!(cpu.get_cycle_count(), 4);
}

#[test]
fn test_unknown_opcode_is_fatal() {
    // 0xD3 is unused on the SM83: the step fails with the full diagnostic
    // and leaves the CPU untouched.
    let mut ram = RAM::new();
    ram.set_at(0x0000, 0xD3).unwrap();
    let mut cpu = SM83::new();
    cpu.fetch_cycle(&ram);
    let before = cpu.to_snapshot();
    let err = cpu.next(&mut ram).unwrap_err();
    assert_eq!(err.opcode, 0xD3);
    assert_eq!(err.pc, 0x0001);
    assert!(err.registers.compare(&before).is_ok());
    assert!(cpu.to_snapshot().compare(&before).is_ok());
    assert_eq!(cpu.get_cycle_count(), 0);
}

#[test]
fn test_flags_low_nibble_stays_zero() {
    // Even a snapshot that tries to plant low flag bits cannot: every write
    // to F masks them, and they stay clear across instructions.
    let mut ram = RAM::new();
    ram.set_at(0x0000, 0x3F).unwrap(); // CCF
    ram.set_at(0x0001, 0x37).unwrap(); // SCF
    ram.set_at(0x0002, 0x00).unwrap();
    let snapshot = SM83Snapshot::new().with_f(0xFF);
    let mut cpu = SM83::new();
    cpu.load_snapshot(snapshot);
    assert_eq!(reg(&cpu, RegisterName::F), 0xF0);
    cpu.fetch_cycle(&ram);
    cpu.next(&mut ram).unwrap(); // CCF: N and H clear, C flipped
    assert_eq!(reg(&cpu, RegisterName::F), 0x80);
    cpu.next(&mut ram).unwrap(); // SCF: C set
    assert_eq!(reg(&cpu, RegisterName::F), 0x90);
}

#[test]
fn test_halt_rewinds_pc() {
    let mut ram = RAM::new();
    ram.set_at(0x0000, 0x76).unwrap(); // HALT
    let mut cpu = SM83::new();
    cpu.fetch_cycle(&ram);
    cpu.next(&mut ram).unwrap();
    // The fetch ran at PC 1 and PC was then rewound to 1, so the next step
    // sees the byte after the HALT with PC back on it.
    assert_eq!(reg(&cpu, RegisterName::PC), 0x0001);
    assert_eq!(reg(&cpu, RegisterName::IR), 0x00);
    assert_eq!(cpu.get_cycle_count(), 1);
}

#[test]
fn test_add_sp_e_negative() {
    // ADD SP,-2 wraps through the low-byte add.
    let mut ram = RAM::new();
    ram.set_at(0x0000, 0xE8).unwrap(); // ADD SP,e
    ram.set_at(0x0001, 0xFE).unwrap();
    ram.set_at(0x0002, 0xCD).unwrap();
    let snapshot = SM83Snapshot::new().with_sp(0x0001);
    let mut cpu = SM83::new();
    cpu.load_snapshot(snapshot);
    cpu.fetch_cycle(&ram);
    cpu.next(&mut ram).unwrap();
    assert_eq!(reg(&cpu, RegisterName::SP), 0xFFFF);
    assert_eq!(cpu.get_cycle_count(), 4);
}

#[test]
fn test_jp_nn() {
    let mut ram = RAM::new();
    ram.set_at(0x0000, 0xC3).unwrap(); // JP nn
    ram.set_at(0x0001, 0x34).unwrap();
    ram.set_at(0x0002, 0x12).unwrap();
    ram.set_at(0x1234, 0xCD).unwrap();
    let mut cpu = SM83::new();
    cpu.fetch_cycle(&ram);
    cpu.next(&mut ram).unwrap();
    assert_eq!(reg(&cpu, RegisterName::PC), 0x1235);
    assert_eq!(reg(&cpu, RegisterName::IR), 0xCD);
    assert_eq!(cpu.get_cycle_count(), 4);
}

#[test]
fn test_ldnn_sp() {
    let mut ram = RAM::new();
    ram.set_at(0x0000, 0x08).unwrap(); // LD (nn),SP
    ram.set_at(0x0001, 0x10).unwrap();
    ram.set_at(0x0002, 0x20).unwrap();
    ram.set_at(0x0003, 0xCD).unwrap();
    let snapshot = SM83Snapshot::new().with_sp(0xBEEF);
    let mut cpu = SM83::new();
    cpu.load_snapshot(snapshot);
    cpu.fetch_cycle(&ram);
    cpu.next(&mut ram).unwrap();
    assert_eq!(ram.get_at(0x2010).unwrap(), 0xEF);
    assert_eq!(ram.get_at(0x2011).unwrap(), 0xBE);
    assert_eq!(cpu.get_cycle_count(), 5);
}

#[test]
fn test_sbc_r_uses_carry() {
    let mut ram = RAM::new();
    ram.set_at(0x0000, 0x98).unwrap(); // SBC B
    ram.set_at(0x0001, 0xCD).unwrap();
    let snapshot = SM83Snapshot::new().with_a(0x10).with_b(0x01).with_f(0x10);
    let mut cpu = SM83::new();
    cpu.load_snapshot(snapshot);
    cpu.fetch_cycle(&ram);
    cpu.next(&mut ram).unwrap();
    assert_eq!(reg(&cpu, RegisterName::A), 0x0E);
    assert_eq!(reg(&cpu, RegisterName::F), 0x60);
    assert_eq!(cpu.get_cycle_count(), 1);
}
