use gbemulator::ram::MemoryRegister;
use gbemulator::ram::RAM;
use gbemulator::sound::FrequencyEnvelope;
use gbemulator::sound_registers::Channel1Registers;
use gbemulator::sound_registers::ChannelControlRegister;
use gbemulator::sound_registers::SoundOnOffRegister;
use gbemulator::sound_registers::SoundOutputSelectionRegister;
use gbemulator::sound_registers::SoundRegisters;

#[test]
fn test_frequency_envelope_sweeps_up() {
    // Two samples per sweep period: the third sample crosses the period and
    // shifts the frequency up by an eighth.
    let mut env = FrequencyEnvelope::new(800, 2, true, 3, 1000000);
    assert_eq!(env.advance(), 800);
    assert_eq!(env.advance(), 800);
    assert_eq!(env.advance(), 900);
}

#[test]
fn test_frequency_envelope_sweeps_down() {
    let mut env = FrequencyEnvelope::new(800, 0, false, 1, 1000000);
    // A zero-length period sweeps on every sample.
    assert_eq!(env.advance(), 400);
    assert_eq!(env.advance(), 200);
}

#[test]
fn test_frequency_envelope_reset() {
    let mut env = FrequencyEnvelope::new(800, 0, false, 1, 1000000);
    env.advance();
    env.advance();
    env.reset();
    assert_eq!(env.advance(), 400);
}

#[test]
fn test_frequency_envelope_no_shift_is_constant() {
    let mut env = FrequencyEnvelope::new(440, 0, true, 0, 48000);
    assert_eq!(env.advance(), 440);
    assert_eq!(env.advance(), 440);
}

#[test]
fn test_sound_control_registers() {
    let mut control = ChannelControlRegister::new();
    control.set_value(0b0011_0010);
    assert_eq!(control.terminal_1_volume(), 0b10);
    assert_eq!(control.terminal_2_volume(), 0b11);

    let mut selection = SoundOutputSelectionRegister::new();
    selection.set_value(0b1001_0110);
    assert_eq!(selection.terminal_1_sound(), [false, true, true, false]);
    assert_eq!(selection.terminal_2_sound(), [true, false, false, true]);

    let mut on_off = SoundOnOffRegister::new();
    assert!(!on_off.is_sound_on());
    on_off.set_value(0x80);
    assert!(on_off.is_sound_on());
}

#[test]
fn test_sound_registers_refresh() {
    let mut ram = RAM::new();
    ram.set_at(0xFF10, 0x11).unwrap();
    ram.set_at(0xFF14, 0x55).unwrap();
    let mut channel = Channel1Registers::new();
    channel.read_from_ram(&ram);
    assert_eq!(channel.sweep.get_value(), 0x11);
    assert_eq!(channel.frequency_hi.get_value(), 0x55);
    channel.sweep.set_value(0x77);
    channel.load_in_ram(&mut ram).unwrap();
    assert_eq!(ram.get_at(0xFF10).unwrap(), 0x77);
}

#[test]
fn test_sound_registers_reset() {
    let mut ram = RAM::new();
    ram.set_at(0xFF26, 0x80).unwrap();
    let mut regs = SoundRegisters::new();
    regs.read_from_ram(&ram);
    assert!(regs.sound_on_off.is_sound_on());
    regs.reset();
    assert!(!regs.sound_on_off.is_sound_on());
}
