use gbemulator::cpu::SM83;
use gbemulator::idu::IDU;
use gbemulator::opcodes::CBPrefixOpCode;
use gbemulator::opcodes::OpCode;
use gbemulator::ram::BootLockMemoryRegister;
use gbemulator::ram::BootRom;
use gbemulator::ram::FakeChecksum;
use gbemulator::ram::FakeRom;
use gbemulator::ram::MemoryRegister;
use gbemulator::ram::RAM;
use gbemulator::registers::RegisterFile;
use gbemulator::registers::RegisterName;
use gbemulator::system::System;

#[test]
fn test_ram_get_set() {
    let mut ram = RAM::new();
    assert_eq!(ram.get_at(0x1234).unwrap(), 0);
    ram.set_at(0x1234, 0xAB).unwrap();
    assert_eq!(ram.get_at(0x1234).unwrap(), 0xAB);
    assert_eq!(ram.get_at(0xFFFF).unwrap(), 0);
}

#[test]
fn test_ram_boot_lock_refuses_writes() {
    let mut ram = RAM::new();
    ram.set_at(0x0010, 0x11).unwrap();
    ram.set_at(0xFF50, 0x01).unwrap();
    assert!(ram.set_at(0x0010, 0x22).is_none());
    assert_eq!(ram.get_at(0x0010).unwrap(), 0x11);
    assert!(ram.set_at(0x0100, 0x33).is_some());
    ram.set_at(0xFF50, 0x00).unwrap();
    assert!(ram.set_at(0x0010, 0x22).is_some());
    assert_eq!(ram.get_at(0x0010).unwrap(), 0x22);
}

#[test]
fn test_ram_dma_request() {
    let mut ram = RAM::new();
    assert!(!ram.was_dma_requested());
    ram.set_at(0xFF46, 0x12).unwrap();
    assert!(ram.was_dma_requested());
    ram.reset_dma_request();
    assert!(!ram.was_dma_requested());
}

#[test]
fn test_ram_get_tile_data() {
    let mut ram = RAM::new();
    for i in 0..16u16 {
        ram.set_at(0x8000 + 32 + i, (i as u8) + 1).unwrap();
    }
    let tile = ram.get_tile_data(0x8000, 2, false);
    for i in 0..16usize {
        assert_eq!(tile[i], (i as u8) + 1);
    }
}

#[test]
fn test_boot_lock_register() {
    let mut lock = BootLockMemoryRegister::new();
    assert!(lock.is_unlocked());
    assert_eq!(lock.get_address(), 0xFF50);
    lock.lock();
    assert!(!lock.is_unlocked());
    assert_eq!(lock.get_value(), 0x01);
    lock.unlock();
    assert!(lock.is_unlocked());
    lock.lock();
    lock.reset();
    assert!(lock.is_unlocked());
}

#[test]
fn test_boot_rom_loads_at_zero() {
    let boot = BootRom::new();
    let mut ram = RAM::new();
    boot.load_in_ram(&mut ram).unwrap();
    assert_eq!(ram.get_at(0x0000).unwrap(), 0x31);
    assert_eq!(ram.get_at(0x0001).unwrap(), 0xFE);
    assert_eq!(ram.get_at(0x00FF).unwrap(), 0x50);
}

#[test]
fn test_boot_rom_refused_when_locked() {
    let boot = BootRom::new();
    let mut ram = RAM::new();
    ram.set_at(0xFF50, 0x01).unwrap();
    assert!(boot.load_in_ram(&mut ram).is_none());
    assert_eq!(ram.get_at(0x0000).unwrap(), 0x00);
}

#[test]
fn test_fake_rom_and_checksum() {
    let mut ram = RAM::new();
    FakeRom::new().load_in_ram(&mut ram).unwrap();
    assert_eq!(ram.get_at(0x0104).unwrap(), 0xCE);
    assert_eq!(ram.get_at(0x0105).unwrap(), 0xED);
    let checksum = FakeChecksum::new();
    assert_eq!(checksum.get_address(), 0x014D);
    assert_eq!(checksum.get_value(), 0xE7);
    checksum.load_in_ram(&mut ram).unwrap();
    assert_eq!(ram.get_at(0x014D).unwrap(), 0xE7);
}

#[test]
fn test_system_boot() {
    let mut system = System::new();
    system.boot();
    let ram = system.get_ram();
    assert_eq!(ram.get_at(0x0000).unwrap(), 0x31);
    assert_eq!(ram.get_at(0xFF50).unwrap(), 0x01);
    assert_eq!(ram.get_at(0x0104).unwrap(), 0xCE);
    let snapshot = system.to_snapshot();
    assert_eq!(snapshot.ir, 0x31);
    assert_eq!(snapshot.pc, 0x0001);
    assert_eq!(system.cycle_count(), 0);
}

#[test]
fn test_system_runs_boot_program_start() {
    // The boot program opens with LD SP,0xFFFE; XOR A; LD HL,0x9FFF.
    let mut system = System::new();
    system.boot();
    system.next().unwrap(); // LD SP,nn
    let s = system.to_snapshot();
    assert_eq!(s.sp, 0xFFFE);
    assert_eq!(system.cycle_count(), 3);
    system.next().unwrap(); // XOR A
    let s = system.to_snapshot();
    assert_eq!(s.a, 0x00);
    assert_eq!(s.f, 0x80);
    assert_eq!(system.cycle_count(), 4);
    system.next().unwrap(); // LD HL,nn
    let s = system.to_snapshot();
    assert_eq!(s.h, 0x9F);
    assert_eq!(s.l, 0xFF);
    assert_eq!(system.cycle_count(), 7);
}

#[test]
fn test_idu_wraps() {
    assert_eq!(IDU::increment(0xFFFF), 0x0000);
    assert_eq!(IDU::increment(0x1234), 0x1235);
    assert_eq!(IDU::decrement(0x0000), 0xFFFF);
    assert_eq!(IDU::decrement(0x1235), 0x1234);
    assert_eq!(IDU::increment(IDU::decrement(0x0000)), 0x0000);
    assert_eq!(IDU::decrement(IDU::increment(0xFFFF)), 0xFFFF);
}

#[test]
fn test_decoder_rejects_unused_opcodes() {
    for ir in [0xD3u8, 0xDB, 0xDD, 0xE3, 0xE4, 0xEB, 0xEC, 0xED, 0xF4, 0xFC, 0xFD] {
        assert!(OpCode::from_ir(ir).is_none());
    }
}

#[test]
fn test_decoder_exact_before_family() {
    assert_eq!(OpCode::from_ir(0x76), Some(OpCode::HALT));
    assert_eq!(OpCode::from_ir(0x77), Some(OpCode::LD_HL_r));
    assert_eq!(OpCode::from_ir(0x7E), Some(OpCode::LD_r_HL));
    assert_eq!(OpCode::from_ir(0x41), Some(OpCode::LD_r_r));
    assert_eq!(OpCode::from_ir(0x86), Some(OpCode::ADD_HL));
    assert_eq!(OpCode::from_ir(0x80), Some(OpCode::ADD_r));
    assert_eq!(OpCode::from_ir(0x36), Some(OpCode::LD_HL_n));
    assert_eq!(OpCode::from_ir(0x06), Some(OpCode::LD_r_n));
    assert_eq!(OpCode::from_ir(0xCB), Some(OpCode::CB_PREFIX));
    assert_eq!(OpCode::from_ir(0x00), Some(OpCode::NOP));
}

#[test]
fn test_cb_decoder_is_total() {
    for ir in 0..=255u8 {
        assert!(CBPrefixOpCode::from_ir(ir).is_some());
    }
    assert_eq!(CBPrefixOpCode::from_ir(0x06), Some(CBPrefixOpCode::RLC_HL));
    assert_eq!(CBPrefixOpCode::from_ir(0x00), Some(CBPrefixOpCode::RLC_r));
    assert_eq!(CBPrefixOpCode::from_ir(0x46), Some(CBPrefixOpCode::BIT_b_HL));
    assert_eq!(CBPrefixOpCode::from_ir(0xC0), Some(CBPrefixOpCode::SET_b_r));
    assert_eq!(CBPrefixOpCode::from_ir(0x86), Some(CBPrefixOpCode::RES_b_HL));
}

#[test]
fn test_register_file_pairs() {
    let mut rf = RegisterFile::new();
    rf.set_bc(0x1234);
    assert_eq!(rf.get_b(), 0x12);
    assert_eq!(rf.get_c(), 0x34);
    rf.set_h(0xAB);
    rf.set_l(0xCD);
    assert_eq!(rf.get_hl(), 0xABCD);
    rf.set_sp(0xFEDC);
    assert_eq!(rf.get_s(), 0xFE);
    assert_eq!(rf.get_p(), 0xDC);
}

#[test]
fn test_register_file_f_masked() {
    let mut rf = RegisterFile::new();
    rf.set_f(0xFF);
    assert_eq!(rf.get_f(), 0xF0);
    rf.set_af(0x12FF);
    assert_eq!(rf.get_af(), 0x12F0);
    rf.set16_qq(3, 0xAB5F).unwrap();
    assert_eq!(rf.get16_qq(3).unwrap(), 0xAB50);
}

#[test]
fn test_register_file_indexed() {
    let mut rf = RegisterFile::new();
    rf.set(0, 0x11).unwrap(); // B
    rf.set(1, 0x22).unwrap(); // C
    rf.set(7, 0x77).unwrap(); // A
    assert_eq!(rf.get(0).unwrap(), 0x11);
    assert_eq!(rf.get(1).unwrap(), 0x22);
    assert_eq!(rf.get(7).unwrap(), 0x77);
    assert!(rf.get(6).is_err());
    assert!(rf.set(6, 0).is_err());
    assert!(rf.get(8).is_err());
    rf.set16(3, 0xBEEF).unwrap(); // SP
    assert_eq!(rf.get16(3).unwrap(), 0xBEEF);
    assert!(rf.set16(4, 0).is_err());
}

#[test]
fn test_register_file_flags() {
    let mut rf = RegisterFile::new();
    rf.set_zero_flag();
    assert_eq!(rf.get_zero_flag(), 1);
    rf.set_carry_flag();
    assert_eq!(rf.get_carry_flag(), 1);
    rf.flip_carry_flag();
    assert_eq!(rf.get_carry_flag(), 0);
    rf.set_negative_flag();
    rf.set_half_carry_flag();
    assert_eq!(rf.get_negative_flag(), 1);
    assert_eq!(rf.get_half_carry_flag(), 1);
    // or_flags sets the given high-nibble bits and touches no others.
    rf.or_flags(0b1010_0000);
    assert_eq!(rf.get_zero_flag(), 1);
    assert_eq!(rf.get_negative_flag(), 1);
    assert_eq!(rf.get_half_carry_flag(), 1);
    assert_eq!(rf.get_carry_flag(), 0);
    rf.or_flags(0b0001_0000);
    assert_eq!(rf.get_f(), 0xF0);
    rf.unset_zero_flag();
    rf.unset_negative_flag();
    rf.unset_half_carry_flag();
    rf.flip_carry_flag();
    assert_eq!(rf.get_f(), 0x00);
}

#[test]
fn test_cpu_reset_fetches() {
    let mut ram = RAM::new();
    ram.set_at(0x0000, 0x42).unwrap();
    let mut cpu = SM83::new();
    cpu.reset(&ram);
    assert_eq!(cpu.get_register(RegisterName::IR), 0x42);
    assert_eq!(cpu.get_register(RegisterName::PC), 0x01);
    assert_eq!(cpu.get_cycle_count(), 0);
}
