//! The memory-mapped sound registers: the four channels' own registers and
//! the three shared control registers, each a byte mirrored at its own
//! address, grouped per channel for the sound synthesizer to read at once.

use crate::ram::MemoryRegister;
use crate::ram::RAM;
use vstd::prelude::*;

verus! {

pub const CHANNEL_1_SWEEP_REGISTER_ADDRESS: u16 = 0xFF10;

pub const CHANNEL_1_WAVE_PATTERN_ADDRESS: u16 = 0xFF11;

pub const CHANNEL_1_VOLUME_ENVELOPE_ADDRESS: u16 = 0xFF12;

pub const CHANNEL_1_FREQUENCY_LO_ADDRESS: u16 = 0xFF13;

pub const CHANNEL_1_FREQUENCY_HI_ADDRESS: u16 = 0xFF14;

pub const CHANNEL_2_WAVE_PATTERN_ADDRESS: u16 = 0xFF16;

pub const CHANNEL_2_VOLUME_ENVELOPE_ADDRESS: u16 = 0xFF17;

pub const CHANNEL_2_FREQUENCY_LO_ADDRESS: u16 = 0xFF18;

pub const CHANNEL_2_FREQUENCY_HI_ADDRESS: u16 = 0xFF19;

pub const CHANNEL_3_SOUND_ON_ADDRESS: u16 = 0xFF1A;

pub const CHANNEL_3_SOUND_LENGTH_ADDRESS: u16 = 0xFF1B;

pub const CHANNEL_3_OUTPUT_LEVEL_ADDRESS: u16 = 0xFF1C;

pub const CHANNEL_3_FREQUENCY_LO_ADDRESS: u16 = 0xFF1D;

pub const CHANNEL_3_FREQUENCY_HI_ADDRESS: u16 = 0xFF1E;

pub const CHANNEL_4_SOUND_LENGTH_ADDRESS: u16 = 0xFF20;

pub const CHANNEL_4_VOLUME_ENVELOPE_ADDRESS: u16 = 0xFF21;

pub const CHANNEL_4_POLYNOMIAL_COUNTER_ADDRESS: u16 = 0xFF22;

pub const CHANNEL_4_COUNTER_CONSECUTIVE_ADDRESS: u16 = 0xFF23;

pub const CHANNEL_CONTROL_ADDRESS: u16 = 0xFF24;

pub const SOUND_OUTPUT_SELECTION_ADDRESS: u16 = 0xFF25;

pub const SOUND_ON_OFF_ADDRESS: u16 = 0xFF26;

pub struct Channel1SweepRegister {
    value: u8,
    address: u16,
}

impl Channel1SweepRegister {
    pub fn new() -> (r: Self)
        ensures
            r.spec_address() == CHANNEL_1_SWEEP_REGISTER_ADDRESS,
            r.spec_value() == 0,
            r.spec_reset_value() == 0,
    {
        Channel1SweepRegister { address: CHANNEL_1_SWEEP_REGISTER_ADDRESS, value: 0x0 }
    }
}

impl MemoryRegister for Channel1SweepRegister {
    closed spec fn spec_address(&self) -> u16 {
        self.address
    }

    closed spec fn spec_value(&self) -> u8 {
        self.value
    }

    closed spec fn spec_reset_value(&self) -> u8 {
        0x00
    }

    fn get_address(&self) -> u16 {
        self.address
    }

    fn get_value(&self) -> u8 {
        self.value
    }

    fn set_value(&mut self, value: u8) {
        self.value = value;
    }

    fn reset(&mut self) {
        self.value = 0x00;
    }

    fn load_in_ram(&self, ram: &mut RAM) -> Option<()> {
        ram.set_at(self.address, self.value)
    }

    fn read_from_ram(&mut self, ram: &RAM) {
        let v = ram.get_at(self.address);
        self.value = v.unwrap();
    }
}

pub struct Channel1WavePatternRegister {
    value: u8,
    address: u16,
}

impl Channel1WavePatternRegister {
    pub fn new() -> (r: Self)
        ensures
            r.spec_address() == CHANNEL_1_WAVE_PATTERN_ADDRESS,
            r.spec_value() == 0,
            r.spec_reset_value() == 0,
    {
        Channel1WavePatternRegister { address: CHANNEL_1_WAVE_PATTERN_ADDRESS, value: 0x0 }
    }
}

impl MemoryRegister for Channel1WavePatternRegister {
    closed spec fn spec_address(&self) -> u16 {
        self.address
    }

    closed spec fn spec_value(&self) -> u8 {
        self.value
    }

    closed spec fn spec_reset_value(&self) -> u8 {
        0x00
    }

    fn get_address(&self) -> u16 {
        self.address
    }

    fn get_value(&self) -> u8 {
        self.value
    }

    fn set_value(&mut self, value: u8) {
        self.value = value;
    }

    fn reset(&mut self) {
        self.value = 0x00;
    }

    fn load_in_ram(&self, ram: &mut RAM) -> Option<()> {
        ram.set_at(self.address, self.value)
    }

    fn read_from_ram(&mut self, ram: &RAM) {
        let v = ram.get_at(self.address);
        self.value = v.unwrap();
    }
}

pub struct Channel1VolumeEnvelopeRegister {
    value: u8,
    address: u16,
}

impl Channel1VolumeEnvelopeRegister {
    pub fn new() -> (r: Self)
        ensures
            r.spec_address() == CHANNEL_1_VOLUME_ENVELOPE_ADDRESS,
            r.spec_value() == 0,
            r.spec_reset_value() == 0,
    {
        Channel1VolumeEnvelopeRegister { address: CHANNEL_1_VOLUME_ENVELOPE_ADDRESS, value: 0x0 }
    }
}

impl MemoryRegister for Channel1VolumeEnvelopeRegister {
    closed spec fn spec_address(&self) -> u16 {
        self.address
    }

    closed spec fn spec_value(&self) -> u8 {
        self.value
    }

    closed spec fn spec_reset_value(&self) -> u8 {
        0x00
    }

    fn get_address(&self) -> u16 {
        self.address
    }

    fn get_value(&self) -> u8 {
        self.value
    }

    fn set_value(&mut self, value: u8) {
        self.value = value;
    }

    fn reset(&mut self) {
        self.value = 0x00;
    }

    fn load_in_ram(&self, ram: &mut RAM) -> Option<()> {
        ram.set_at(self.address, self.value)
    }

    fn read_from_ram(&mut self, ram: &RAM) {
        let v = ram.get_at(self.address);
        self.value = v.unwrap();
    }
}

pub struct Channel1FrequencyLoRegister {
    value: u8,
    address: u16,
}

impl Channel1FrequencyLoRegister {
    pub fn new() -> (r: Self)
        ensures
            r.spec_address() == CHANNEL_1_FREQUENCY_LO_ADDRESS,
            r.spec_value() == 0,
            r.spec_reset_value() == 0,
    {
        Channel1FrequencyLoRegister { address: CHANNEL_1_FREQUENCY_LO_ADDRESS, value: 0x0 }
    }
}

impl MemoryRegister for Channel1FrequencyLoRegister {
    closed spec fn spec_address(&self) -> u16 {
        self.address
    }

    closed spec fn spec_value(&self) -> u8 {
        self.value
    }

    closed spec fn spec_reset_value(&self) -> u8 {
        0x00
    }

    fn get_address(&self) -> u16 {
        self.address
    }

    fn get_value(&self) -> u8 {
        self.value
    }

    fn set_value(&mut self, value: u8) {
        self.value = value;
    }

    fn reset(&mut self) {
        self.value = 0x00;
    }

    fn load_in_ram(&self, ram: &mut RAM) -> Option<()> {
        ram.set_at(self.address, self.value)
    }

    fn read_from_ram(&mut self, ram: &RAM) {
        let v = ram.get_at(self.address);
        self.value = v.unwrap();
    }
}

pub struct Channel1FrequencyHiRegister {
    value: u8,
    address: u16,
}

impl Channel1FrequencyHiRegister {
    pub fn new() -> (r: Self)
        ensures
            r.spec_address() == CHANNEL_1_FREQUENCY_HI_ADDRESS,
            r.spec_value() == 0,
            r.spec_reset_value() == 0,
    {
        Channel1FrequencyHiRegister { address: CHANNEL_1_FREQUENCY_HI_ADDRESS, value: 0x0 }
    }
}

impl MemoryRegister for Channel1FrequencyHiRegister {
    closed spec fn spec_address(&self) -> u16 {
        self.address
    }

    closed spec fn spec_value(&self) -> u8 {
        self.value
    }

    closed spec fn spec_reset_value(&self) -> u8 {
        0x00
    }

    fn get_address(&self) -> u16 {
        self.address
    }

    fn get_value(&self) -> u8 {
        self.value
    }

    fn set_value(&mut self, value: u8) {
        self.value = value;
    }

    fn reset(&mut self) {
        self.value = 0x00;
    }

    fn load_in_ram(&self, ram: &mut RAM) -> Option<()> {
        ram.set_at(self.address, self.value)
    }

    fn read_from_ram(&mut self, ram: &RAM) {
        let v = ram.get_at(self.address);
        self.value = v.unwrap();
    }
}

pub struct Channel2WavePatternRegister {
    value: u8,
    address: u16,
}

impl Channel2WavePatternRegister {
    pub fn new() -> (r: Self)
        ensures
            r.spec_address() == CHANNEL_2_WAVE_PATTERN_ADDRESS,
            r.spec_value() == 0,
            r.spec_reset_value() == 0,
    {
        Channel2WavePatternRegister { address: CHANNEL_2_WAVE_PATTERN_ADDRESS, value: 0x0 }
    }
}

impl MemoryRegister for Channel2WavePatternRegister {
    closed spec fn spec_address(&self) -> u16 {
        self.address
    }

    closed spec fn spec_value(&self) -> u8 {
        self.value
    }

    closed spec fn spec_reset_value(&self) -> u8 {
        0x00
    }

    fn get_address(&self) -> u16 {
        self.address
    }

    fn get_value(&self) -> u8 {
        self.value
    }

    fn set_value(&mut self, value: u8) {
        self.value = value;
    }

    fn reset(&mut self) {
        self.value = 0x00;
    }

    fn load_in_ram(&self, ram: &mut RAM) -> Option<()> {
        ram.set_at(self.address, self.value)
    }

    fn read_from_ram(&mut self, ram: &RAM) {
        let v = ram.get_at(self.address);
        self.value = v.unwrap();
    }
}

pub struct Channel2VolumeEnvelopeRegister {
    value: u8,
    address: u16,
}

impl Channel2VolumeEnvelopeRegister {
    pub fn new() -> (r: Self)
        ensures
            r.spec_address() == CHANNEL_2_VOLUME_ENVELOPE_ADDRESS,
            r.spec_value() == 0,
            r.spec_reset_value() == 0,
    {
        Channel2VolumeEnvelopeRegister { address: CHANNEL_2_VOLUME_ENVELOPE_ADDRESS, value: 0x0 }
    }
}

impl MemoryRegister for Channel2VolumeEnvelopeRegister {
    closed spec fn spec_address(&self) -> u16 {
        self.address
    }

    closed spec fn spec_value(&self) -> u8 {
        self.value
    }

    closed spec fn spec_reset_value(&self) -> u8 {
        0x00
    }

    fn get_address(&self) -> u16 {
        self.address
    }

    fn get_value(&self) -> u8 {
        self.value
    }

    fn set_value(&mut self, value: u8) {
        self.value = value;
    }

    fn reset(&mut self) {
        self.value = 0x00;
    }

    fn load_in_ram(&self, ram: &mut RAM) -> Option<()> {
        ram.set_at(self.address, self.value)
    }

    fn read_from_ram(&mut self, ram: &RAM) {
        let v = ram.get_at(self.address);
        self.value = v.unwrap();
    }
}

pub struct Channel2FrequencyLoRegister {
    value: u8,
    address: u16,
}

impl Channel2FrequencyLoRegister {
    pub fn new() -> (r: Self)
        ensures
            r.spec_address() == CHANNEL_2_FREQUENCY_LO_ADDRESS,
            r.spec_value() == 0,
            r.spec_reset_value() == 0,
    {
        Channel2FrequencyLoRegister { address: CHANNEL_2_FREQUENCY_LO_ADDRESS, value: 0x0 }
    }
}

impl MemoryRegister for Channel2FrequencyLoRegister {
    closed spec fn spec_address(&self) -> u16 {
        self.address
    }

    closed spec fn spec_value(&self) -> u8 {
        self.value
    }

    closed spec fn spec_reset_value(&self) -> u8 {
        0x00
    }

    fn get_address(&self) -> u16 {
        self.address
    }

    fn get_value(&self) -> u8 {
        self.value
    }

    fn set_value(&mut self, value: u8) {
        self.value = value;
    }

    fn reset(&mut self) {
        self.value = 0x00;
    }

    fn load_in_ram(&self, ram: &mut RAM) -> Option<()> {
        ram.set_at(self.address, self.value)
    }

    fn read_from_ram(&mut self, ram: &RAM) {
        let v = ram.get_at(self.address);
        self.value = v.unwrap();
    }
}

pub struct Channel2FrequencyHiRegister {
    value: u8,
    address: u16,
}

impl Channel2FrequencyHiRegister {
    pub fn new() -> (r: Self)
        ensures
            r.spec_address() == CHANNEL_2_FREQUENCY_HI_ADDRESS,
            r.spec_value() == 0,
            r.spec_reset_value() == 0,
    {
        Channel2FrequencyHiRegister { address: CHANNEL_2_FREQUENCY_HI_ADDRESS, value: 0x0 }
    }
}

impl MemoryRegister for Channel2FrequencyHiRegister {
    closed spec fn spec_address(&self) -> u16 {
        self.address
    }

    closed spec fn spec_value(&self) -> u8 {
        self.value
    }

    closed spec fn spec_reset_value(&self) -> u8 {
        0x00
    }

    fn get_address(&self) -> u16 {
        self.address
    }

    fn get_value(&self) -> u8 {
        self.value
    }

    fn set_value(&mut self, value: u8) {
        self.value = value;
    }

    fn reset(&mut self) {
        self.value = 0x00;
    }

    fn load_in_ram(&self, ram: &mut RAM) -> Option<()> {
        ram.set_at(self.address, self.value)
    }

    fn read_from_ram(&mut self, ram: &RAM) {
        let v = ram.get_at(self.address);
        self.value = v.unwrap();
    }
}

pub struct Channel3SoundOnRegister {
    value: u8,
    address: u16,
}

impl Channel3SoundOnRegister {
    pub fn new() -> (r: Self)
        ensures
            r.spec_address() == CHANNEL_3_SOUND_ON_ADDRESS,
            r.spec_value() == 0,
            r.spec_reset_value() == 0,
    {
        Channel3SoundOnRegister { address: CHANNEL_3_SOUND_ON_ADDRESS, value: 0x0 }
    }
}

impl MemoryRegister for Channel3SoundOnRegister {
    closed spec fn spec_address(&self) -> u16 {
        self.address
    }

    closed spec fn spec_value(&self) -> u8 {
        self.value
    }

    closed spec fn spec_reset_value(&self) -> u8 {
        0x00
    }

    fn get_address(&self) -> u16 {
        self.address
    }

    fn get_value(&self) -> u8 {
        self.value
    }

    fn set_value(&mut self, value: u8) {
        self.value = value;
    }

    fn reset(&mut self) {
        self.value = 0x00;
    }

    fn load_in_ram(&self, ram: &mut RAM) -> Option<()> {
        ram.set_at(self.address, self.value)
    }

    fn read_from_ram(&mut self, ram: &RAM) {
        let v = ram.get_at(self.address);
        self.value = v.unwrap();
    }
}

pub struct Channel3SoundLengthRegister {
    value: u8,
    address: u16,
}

impl Channel3SoundLengthRegister {
    pub fn new() -> (r: Self)
        ensures
            r.spec_address() == CHANNEL_3_SOUND_LENGTH_ADDRESS,
            r.spec_value() == 0,
            r.spec_reset_value() == 0,
    {
        Channel3SoundLengthRegister { address: CHANNEL_3_SOUND_LENGTH_ADDRESS, value: 0x0 }
    }
}

impl MemoryRegister for Channel3SoundLengthRegister {
    closed spec fn spec_address(&self) -> u16 {
        self.address
    }

    closed spec fn spec_value(&self) -> u8 {
        self.value
    }

    closed spec fn spec_reset_value(&self) -> u8 {
        0x00
    }

    fn get_address(&self) -> u16 {
        self.address
    }

    fn get_value(&self) -> u8 {
        self.value
    }

    fn set_value(&mut self, value: u8) {
        self.value = value;
    }

    fn reset(&mut self) {
        self.value = 0x00;
    }

    fn load_in_ram(&self, ram: &mut RAM) -> Option<()> {
        ram.set_at(self.address, self.value)
    }

    fn read_from_ram(&mut self, ram: &RAM) {
        let v = ram.get_at(self.address);
        self.value = v.unwrap();
    }
}

pub struct Channel3OutputLevelRegister {
    value: u8,
    address: u16,
}

impl Channel3OutputLevelRegister {
    pub fn new() -> (r: Self)
        ensures
            r.spec_address() == CHANNEL_3_OUTPUT_LEVEL_ADDRESS,
            r.spec_value() == 0,
            r.spec_reset_value() == 0,
    {
        Channel3OutputLevelRegister { address: CHANNEL_3_OUTPUT_LEVEL_ADDRESS, value: 0x0 }
    }
}

impl MemoryRegister for Channel3OutputLevelRegister {
    closed spec fn spec_address(&self) -> u16 {
        self.address
    }

    closed spec fn spec_value(&self) -> u8 {
        self.value
    }

    closed spec fn spec_reset_value(&self) -> u8 {
        0x00
    }

    fn get_address(&self) -> u16 {
        self.address
    }

    fn get_value(&self) -> u8 {
        self.value
    }

    fn set_value(&mut self, value: u8) {
        self.value = value;
    }

    fn reset(&mut self) {
        self.value = 0x00;
    }

    fn load_in_ram(&self, ram: &mut RAM) -> Option<()> {
        ram.set_at(self.address, self.value)
    }

    fn read_from_ram(&mut self, ram: &RAM) {
        let v = ram.get_at(self.address);
        self.value = v.unwrap();
    }
}

pub struct Channel3FrequencyLoRegister {
    value: u8,
    address: u16,
}

impl Channel3FrequencyLoRegister {
    pub fn new() -> (r: Self)
        ensures
            r.spec_address() == CHANNEL_3_FREQUENCY_LO_ADDRESS,
            r.spec_value() == 0,
            r.spec_reset_value() == 0,
    {
        Channel3FrequencyLoRegister { address: CHANNEL_3_FREQUENCY_LO_ADDRESS, value: 0x0 }
    }
}

impl MemoryRegister for Channel3FrequencyLoRegister {
    closed spec fn spec_address(&self) -> u16 {
        self.address
    }

    closed spec fn spec_value(&self) -> u8 {
        self.value
    }

    closed spec fn spec_reset_value(&self) -> u8 {
        0x00
    }

    fn get_address(&self) -> u16 {
        self.address
    }

    fn get_value(&self) -> u8 {
        self.value
    }

    fn set_value(&mut self, value: u8) {
        self.value = value;
    }

    fn reset(&mut self) {
        self.value = 0x00;
    }

    fn load_in_ram(&self, ram: &mut RAM) -> Option<()> {
        ram.set_at(self.address, self.value)
    }

    fn read_from_ram(&mut self, ram: &RAM) {
        let v = ram.get_at(self.address);
        self.value = v.unwrap();
    }
}

pub struct Channel3FrequencyHiRegister {
    value: u8,
    address: u16,
}

impl Channel3FrequencyHiRegister {
    pub fn new() -> (r: Self)
        ensures
            r.spec_address() == CHANNEL_3_FREQUENCY_HI_ADDRESS,
            r.spec_value() == 0,
            r.spec_reset_value() == 0,
    {
        Channel3FrequencyHiRegister { address: CHANNEL_3_FREQUENCY_HI_ADDRESS, value: 0x0 }
    }
}

impl MemoryRegister for Channel3FrequencyHiRegister {
    closed spec fn spec_address(&self) -> u16 {
        self.address
    }

    closed spec fn spec_value(&self) -> u8 {
        self.value
    }

    closed spec fn spec_reset_value(&self) -> u8 {
        0x00
    }

    fn get_address(&self) -> u16 {
        self.address
    }

    fn get_value(&self) -> u8 {
        self.value
    }

    fn set_value(&mut self, value: u8) {
        self.value = value;
    }

    fn reset(&mut self) {
        self.value = 0x00;
    }

    fn load_in_ram(&self, ram: &mut RAM) -> Option<()> {
        ram.set_at(self.address, self.value)
    }

    fn read_from_ram(&mut self, ram: &RAM) {
        let v = ram.get_at(self.address);
        self.value = v.unwrap();
    }
}

pub struct Channel4SoundLengthRegister {
    value: u8,
    address: u16,
}

impl Channel4SoundLengthRegister {
    pub fn new() -> (r: Self)
        ensures
            r.spec_address() == CHANNEL_4_SOUND_LENGTH_ADDRESS,
            r.spec_value() == 0,
            r.spec_reset_value() == 0,
    {
        Channel4SoundLengthRegister { address: CHANNEL_4_SOUND_LENGTH_ADDRESS, value: 0x0 }
    }
}

impl MemoryRegister for Channel4SoundLengthRegister {
    closed spec fn spec_address(&self) -> u16 {
        self.address
    }

    closed spec fn spec_value(&self) -> u8 {
        self.value
    }

    closed spec fn spec_reset_value(&self) -> u8 {
        0x00
    }

    fn get_address(&self) -> u16 {
        self.address
    }

    fn get_value(&self) -> u8 {
        self.value
    }

    fn set_value(&mut self, value: u8) {
        self.value = value;
    }

    fn reset(&mut self) {
        self.value = 0x00;
    }

    fn load_in_ram(&self, ram: &mut RAM) -> Option<()> {
        ram.set_at(self.address, self.value)
    }

    fn read_from_ram(&mut self, ram: &RAM) {
        let v = ram.get_at(self.address);
        self.value = v.unwrap();
    }
}

pub struct Channel4VolumeEnvelopeRegister {
    value: u8,
    address: u16,
}

impl Channel4VolumeEnvelopeRegister {
    pub fn new() -> (r: Self)
        ensures
            r.spec_address() == CHANNEL_4_VOLUME_ENVELOPE_ADDRESS,
            r.spec_value() == 0,
            r.spec_reset_value() == 0,
    {
        Channel4VolumeEnvelopeRegister { address: CHANNEL_4_VOLUME_ENVELOPE_ADDRESS, value: 0x0 }
    }
}

impl MemoryRegister for Channel4VolumeEnvelopeRegister {
    closed spec fn spec_address(&self) -> u16 {
        self.address
    }

    closed spec fn spec_value(&self) -> u8 {
        self.value
    }

    closed spec fn spec_reset_value(&self) -> u8 {
        0x00
    }

    fn get_address(&self) -> u16 {
        self.address
    }

    fn get_value(&self) -> u8 {
        self.value
    }

    fn set_value(&mut self, value: u8) {
        self.value = value;
    }

    fn reset(&mut self) {
        self.value = 0x00;
    }

    fn load_in_ram(&self, ram: &mut RAM) -> Option<()> {
        ram.set_at(self.address, self.value)
    }

    fn read_from_ram(&mut self, ram: &RAM) {
        let v = ram.get_at(self.address);
        self.value = v.unwrap();
    }
}

pub struct Channel4PolynomialCounterRegister {
    value: u8,
    address: u16,
}

impl Channel4PolynomialCounterRegister {
    pub fn new() -> (r: Self)
        ensures
            r.spec_address() == CHANNEL_4_POLYNOMIAL_COUNTER_ADDRESS,
            r.spec_value() == 0,
            r.spec_reset_value() == 0,
    {
        Channel4PolynomialCounterRegister { address: CHANNEL_4_POLYNOMIAL_COUNTER_ADDRESS, value: 0x0 }
    }
}

impl MemoryRegister for Channel4PolynomialCounterRegister {
    closed spec fn spec_address(&self) -> u16 {
        self.address
    }

    closed spec fn spec_value(&self) -> u8 {
        self.value
    }

    closed spec fn spec_reset_value(&self) -> u8 {
        0x00
    }

    fn get_address(&self) -> u16 {
        self.address
    }

    fn get_value(&self) -> u8 {
        self.value
    }

    fn set_value(&mut self, value: u8) {
        self.value = value;
    }

    fn reset(&mut self) {
        self.value = 0x00;
    }

    fn load_in_ram(&self, ram: &mut RAM) -> Option<()> {
        ram.set_at(self.address, self.value)
    }

    fn read_from_ram(&mut self, ram: &RAM) {
        let v = ram.get_at(self.address);
        self.value = v.unwrap();
    }
}

pub struct Channel4CounterConsecutiveRegister {
    value: u8,
    address: u16,
}

impl Channel4CounterConsecutiveRegister {
    pub fn new() -> (r: Self)
        ensures
            r.spec_address() == CHANNEL_4_COUNTER_CONSECUTIVE_ADDRESS,
            r.spec_value() == 0,
            r.spec_reset_value() == 0,
    {
        Channel4CounterConsecutiveRegister { address: CHANNEL_4_COUNTER_CONSECUTIVE_ADDRESS, value: 0x0 }
    }
}

impl MemoryRegister for Channel4CounterConsecutiveRegister {
    closed spec fn spec_address(&self) -> u16 {
        self.address
    }

    closed spec fn spec_value(&self) -> u8 {
        self.value
    }

    closed spec fn spec_reset_value(&self) -> u8 {
        0x00
    }

    fn get_address(&self) -> u16 {
        self.address
    }

    fn get_value(&self) -> u8 {
        self.value
    }

    fn set_value(&mut self, value: u8) {
        self.value = value;
    }

    fn reset(&mut self) {
        self.value = 0x00;
    }

    fn load_in_ram(&self, ram: &mut RAM) -> Option<()> {
        ram.set_at(self.address, self.value)
    }

    fn read_from_ram(&mut self, ram: &RAM) {
        let v = ram.get_at(self.address);
        self.value = v.unwrap();
    }
}

pub struct ChannelControlRegister {
    value: u8,
    address: u16,
}

impl ChannelControlRegister {
    pub fn new() -> (r: Self)
        ensures
            r.spec_address() == CHANNEL_CONTROL_ADDRESS,
            r.spec_value() == 0,
            r.spec_reset_value() == 0,
    {
        ChannelControlRegister { address: CHANNEL_CONTROL_ADDRESS, value: 0x0 }
    }

    /// The volume for output terminal 1, from the low bits.
    pub fn terminal_1_volume(&self) -> (r: u8)
        ensures
            r == self.spec_value() & 0x03,
            r < 8,
    {
        proof {
            let v = self.spec_value();
            assert(v & 0x03 < 8) by (bit_vector);
        }
        self.value & 0x03
    }

    /// The volume for output terminal 2, from bits 4..6.
    pub fn terminal_2_volume(&self) -> (r: u8)
        ensures
            r == (self.spec_value() & 0x30) >> 4,
            r < 8,
    {
        proof {
            let v = self.spec_value();
            assert((v & 0x30) >> 4 < 8) by (bit_vector);
        }
        (self.value & 0x30) >> 4
    }
}

impl MemoryRegister for ChannelControlRegister {
    closed spec fn spec_address(&self) -> u16 {
        self.address
    }

    closed spec fn spec_value(&self) -> u8 {
        self.value
    }

    closed spec fn spec_reset_value(&self) -> u8 {
        0x00
    }

    fn get_address(&self) -> u16 {
        self.address
    }

    fn get_value(&self) -> u8 {
        self.value
    }

    fn set_value(&mut self, value: u8) {
        self.value = value;
    }

    fn reset(&mut self) {
        self.value = 0x00;
    }

    fn load_in_ram(&self, ram: &mut RAM) -> Option<()> {
        ram.set_at(self.address, self.value)
    }

    fn read_from_ram(&mut self, ram: &RAM) {
        let v = ram.get_at(self.address);
        self.value = v.unwrap();
    }
}

pub struct SoundOutputSelectionRegister {
    value: u8,
    address: u16,
}

impl SoundOutputSelectionRegister {
    pub fn new() -> (r: Self)
        ensures
            r.spec_address() == SOUND_OUTPUT_SELECTION_ADDRESS,
            r.spec_value() == 0,
            r.spec_reset_value() == 0,
    {
        SoundOutputSelectionRegister { address: SOUND_OUTPUT_SELECTION_ADDRESS, value: 0x0 }
    }

    /// Which of the four channels feed output terminal 1, lowest channel
    /// first.
    pub fn terminal_1_sound(&self) -> (r: [bool; 4])
        ensures
            r@ =~= seq![
                self.spec_value() & 0x01 != 0,
                self.spec_value() & 0x02 != 0,
                self.spec_value() & 0x04 != 0,
                self.spec_value() & 0x08 != 0,
            ],
    {
        [
            self.value & 0x01 != 0,
            self.value & 0x02 != 0,
            self.value & 0x04 != 0,
            self.value & 0x08 != 0,
        ]
    }

    /// Which of the four channels feed output terminal 2, lowest channel
    /// first.
    pub fn terminal_2_sound(&self) -> (r: [bool; 4])
        ensures
            r@ =~= seq![
                self.spec_value() & 0x10 != 0,
                self.spec_value() & 0x20 != 0,
                self.spec_value() & 0x40 != 0,
                self.spec_value() & 0x80 != 0,
            ],
    {
        [
            self.value & 0x10 != 0,
            self.value & 0x20 != 0,
            self.value & 0x40 != 0,
            self.value & 0x80 != 0,
        ]
    }
}

impl MemoryRegister for SoundOutputSelectionRegister {
    closed spec fn spec_address(&self) -> u16 {
        self.address
    }

    closed spec fn spec_value(&self) -> u8 {
        self.value
    }

    closed spec fn spec_reset_value(&self) -> u8 {
        0x00
    }

    fn get_address(&self) -> u16 {
        self.address
    }

    fn get_value(&self) -> u8 {
        self.value
    }

    fn set_value(&mut self, value: u8) {
        self.value = value;
    }

    fn reset(&mut self) {
        self.value = 0x00;
    }

    fn load_in_ram(&self, ram: &mut RAM) -> Option<()> {
        ram.set_at(self.address, self.value)
    }

    fn read_from_ram(&mut self, ram: &RAM) {
        let v = ram.get_at(self.address);
        self.value = v.unwrap();
    }
}

pub struct SoundOnOffRegister {
    value: u8,
    address: u16,
}

impl SoundOnOffRegister {
    pub fn new() -> (r: Self)
        ensures
            r.spec_address() == SOUND_ON_OFF_ADDRESS,
            r.spec_value() == 0,
            r.spec_reset_value() == 0,
    {
        SoundOnOffRegister { address: SOUND_ON_OFF_ADDRESS, value: 0x0 }
    }

    /// Bit 7: whether sound is enabled at all.
    pub fn is_sound_on(&self) -> (r: bool)
        ensures
            r == (self.spec_value() & 0x80 != 0),
    {
        self.value & 0x80 != 0
    }
}

impl MemoryRegister for SoundOnOffRegister {
    closed spec fn spec_address(&self) -> u16 {
        self.address
    }

    closed spec fn spec_value(&self) -> u8 {
        self.value
    }

    closed spec fn spec_reset_value(&self) -> u8 {
        0x00
    }

    fn get_address(&self) -> u16 {
        self.address
    }

    fn get_value(&self) -> u8 {
        self.value
    }

    fn set_value(&mut self, value: u8) {
        self.value = value;
    }

    fn reset(&mut self) {
        self.value = 0x00;
    }

    fn load_in_ram(&self, ram: &mut RAM) -> Option<()> {
        ram.set_at(self.address, self.value)
    }

    fn read_from_ram(&mut self, ram: &RAM) {
        let v = ram.get_at(self.address);
        self.value = v.unwrap();
    }
}

pub struct Channel1Registers {
    pub sweep: Channel1SweepRegister,
    pub wave_pattern: Channel1WavePatternRegister,
    pub volume_envelope: Channel1VolumeEnvelopeRegister,
    pub frequency_lo: Channel1FrequencyLoRegister,
    pub frequency_hi: Channel1FrequencyHiRegister,
}

impl Channel1Registers {
    pub fn new() -> (r: Self)
        ensures
            r.wf(),
    {
        Channel1Registers {
            sweep: Channel1SweepRegister::new(),
            wave_pattern: Channel1WavePatternRegister::new(),
            volume_envelope: Channel1VolumeEnvelopeRegister::new(),
            frequency_lo: Channel1FrequencyLoRegister::new(),
            frequency_hi: Channel1FrequencyHiRegister::new(),
        }
    }

    /// Each sub-register sits at its own hardware address, above the
    /// boot-ROM region.
    pub open spec fn wf(&self) -> bool {
        self.sweep.spec_address() > 0xFF && self.wave_pattern.spec_address() > 0xFF && self.volume_envelope.spec_address() > 0xFF && self.frequency_lo.spec_address() > 0xFF && self.frequency_hi.spec_address() > 0xFF
    }

    /// Refreshes every sub-register from memory.
    pub fn read_from_ram(&mut self, ram: &RAM)
        requires
            ram.wf(),
        ensures
            final(self).sweep.spec_value() == ram@[old(self).sweep.spec_address() as int],
            final(self).sweep.spec_address() == old(self).sweep.spec_address(),
            final(self).wave_pattern.spec_value() == ram@[old(self).wave_pattern.spec_address() as int],
            final(self).wave_pattern.spec_address() == old(self).wave_pattern.spec_address(),
            final(self).volume_envelope.spec_value() == ram@[old(self).volume_envelope.spec_address() as int],
            final(self).volume_envelope.spec_address() == old(self).volume_envelope.spec_address(),
            final(self).frequency_lo.spec_value() == ram@[old(self).frequency_lo.spec_address() as int],
            final(self).frequency_lo.spec_address() == old(self).frequency_lo.spec_address(),
            final(self).frequency_hi.spec_value() == ram@[old(self).frequency_hi.spec_address() as int],
            final(self).frequency_hi.spec_address() == old(self).frequency_hi.spec_address(),
    {
        self.sweep.read_from_ram(ram);
        self.wave_pattern.read_from_ram(ram);
        self.volume_envelope.read_from_ram(ram);
        self.frequency_lo.read_from_ram(ram);
        self.frequency_hi.read_from_ram(ram);
    }

    /// Stores every sub-register at its address; these writes are never
    /// refused because every address lies above the boot-ROM region.
    pub fn load_in_ram(&self, ram: &mut RAM) -> (r: Option<()>)
        requires
            old(ram).wf(),
            self.wf(),
        ensures
            final(ram).wf(),
            r is Some,
    {
        let r0 = self.sweep.load_in_ram(ram);
        proof { assert(r0 is Some); }
        let r1 = self.wave_pattern.load_in_ram(ram);
        proof { assert(r1 is Some); }
        let r2 = self.volume_envelope.load_in_ram(ram);
        proof { assert(r2 is Some); }
        let r3 = self.frequency_lo.load_in_ram(ram);
        proof { assert(r3 is Some); }
        let r4 = self.frequency_hi.load_in_ram(ram);
        proof { assert(r4 is Some); }
        Some(())
    }

    /// Resets every sub-register to its power-on value.
    pub fn reset(&mut self)
        ensures
            final(self).sweep.spec_value() == old(self).sweep.spec_reset_value(),
            final(self).sweep.spec_address() == old(self).sweep.spec_address(),
            final(self).wave_pattern.spec_value() == old(self).wave_pattern.spec_reset_value(),
            final(self).wave_pattern.spec_address() == old(self).wave_pattern.spec_address(),
            final(self).volume_envelope.spec_value() == old(self).volume_envelope.spec_reset_value(),
            final(self).volume_envelope.spec_address() == old(self).volume_envelope.spec_address(),
            final(self).frequency_lo.spec_value() == old(self).frequency_lo.spec_reset_value(),
            final(self).frequency_lo.spec_address() == old(self).frequency_lo.spec_address(),
            final(self).frequency_hi.spec_value() == old(self).frequency_hi.spec_reset_value(),
            final(self).frequency_hi.spec_address() == old(self).frequency_hi.spec_address(),
    {
        self.sweep.reset();
        self.wave_pattern.reset();
        self.volume_envelope.reset();
        self.frequency_lo.reset();
        self.frequency_hi.reset();
    }
}

pub struct Channel2Registers {
    pub wave_pattern: Channel2WavePatternRegister,
    pub volume_envelope: Channel2VolumeEnvelopeRegister,
    pub frequency_lo: Channel2FrequencyLoRegister,
    pub frequency_hi: Channel2FrequencyHiRegister,
}

impl Channel2Registers {
    pub fn new() -> (r: Self)
        ensures
            r.wf(),
    {
        Channel2Registers {
            wave_pattern: Channel2WavePatternRegister::new(),
            volume_envelope: Channel2VolumeEnvelopeRegister::new(),
            frequency_lo: Channel2FrequencyLoRegister::new(),
            frequency_hi: Channel2FrequencyHiRegister::new(),
        }
    }

    /// Each sub-register sits at its own hardware address, above the
    /// boot-ROM region.
    pub open spec fn wf(&self) -> bool {
        self.wave_pattern.spec_address() > 0xFF && self.volume_envelope.spec_address() > 0xFF && self.frequency_lo.spec_address() > 0xFF && self.frequency_hi.spec_address() > 0xFF
    }

    /// Refreshes every sub-register from memory.
    pub fn read_from_ram(&mut self, ram: &RAM)
        requires
            ram.wf(),
        ensures
            final(self).wave_pattern.spec_value() == ram@[old(self).wave_pattern.spec_address() as int],
            final(self).wave_pattern.spec_address() == old(self).wave_pattern.spec_address(),
            final(self).volume_envelope.spec_value() == ram@[old(self).volume_envelope.spec_address() as int],
            final(self).volume_envelope.spec_address() == old(self).volume_envelope.spec_address(),
            final(self).frequency_lo.spec_value() == ram@[old(self).frequency_lo.spec_address() as int],
            final(self).frequency_lo.spec_address() == old(self).frequency_lo.spec_address(),
            final(self).frequency_hi.spec_value() == ram@[old(self).frequency_hi.spec_address() as int],
            final(self).frequency_hi.spec_address() == old(self).frequency_hi.spec_address(),
    {
        self.wave_pattern.read_from_ram(ram);
        self.volume_envelope.read_from_ram(ram);
        self.frequency_lo.read_from_ram(ram);
        self.frequency_hi.read_from_ram(ram);
    }

    /// Stores every sub-register at its address; these writes are never
    /// refused because every address lies above the boot-ROM region.
    pub fn load_in_ram(&self, ram: &mut RAM) -> (r: Option<()>)
        requires
            old(ram).wf(),
            self.wf(),
        ensures
            final(ram).wf(),
            r is Some,
    {
        let r0 = self.wave_pattern.load_in_ram(ram);
        proof { assert(r0 is Some); }
        let r1 = self.volume_envelope.load_in_ram(ram);
        proof { assert(r1 is Some); }
        let r2 = self.frequency_lo.load_in_ram(ram);
        proof { assert(r2 is Some); }
        let r3 = self.frequency_hi.load_in_ram(ram);
        proof { assert(r3 is Some); }
        Some(())
    }

    /// Resets every sub-register to its power-on value.
    pub fn reset(&mut self)
        ensures
            final(self).wave_pattern.spec_value() == old(self).wave_pattern.spec_reset_value(),
            final(self).wave_pattern.spec_address() == old(self).wave_pattern.spec_address(),
            final(self).volume_envelope.spec_value() == old(self).volume_envelope.spec_reset_value(),
            final(self).volume_envelope.spec_address() == old(self).volume_envelope.spec_address(),
            final(self).frequency_lo.spec_value() == old(self).frequency_lo.spec_reset_value(),
            final(self).frequency_lo.spec_address() == old(self).frequency_lo.spec_address(),
            final(self).frequency_hi.spec_value() == old(self).frequency_hi.spec_reset_value(),
            final(self).frequency_hi.spec_address() == old(self).frequency_hi.spec_address(),
    {
        self.wave_pattern.reset();
        self.volume_envelope.reset();
        self.frequency_lo.reset();
        self.frequency_hi.reset();
    }
}

pub struct Channel3Registers {
    pub sound_on: Channel3SoundOnRegister,
    pub sound_length: Channel3SoundLengthRegister,
    pub output_level: Channel3OutputLevelRegister,
    pub frequency_lo: Channel3FrequencyLoRegister,
    pub frequency_hi: Channel3FrequencyHiRegister,
}

impl Channel3Registers {
    pub fn new() -> (r: Self)
        ensures
            r.wf(),
    {
        Channel3Registers {
            sound_on: Channel3SoundOnRegister::new(),
            sound_length: Channel3SoundLengthRegister::new(),
            output_level: Channel3OutputLevelRegister::new(),
            frequency_lo: Channel3FrequencyLoRegister::new(),
            frequency_hi: Channel3FrequencyHiRegister::new(),
        }
    }

    /// Each sub-register sits at its own hardware address, above the
    /// boot-ROM region.
    pub open spec fn wf(&self) -> bool {
        self.sound_on.spec_address() > 0xFF && self.sound_length.spec_address() > 0xFF && self.output_level.spec_address() > 0xFF && self.frequency_lo.spec_address() > 0xFF && self.frequency_hi.spec_address() > 0xFF
    }

    /// Refreshes every sub-register from memory.
    pub fn read_from_ram(&mut self, ram: &RAM)
        requires
            ram.wf(),
        ensures
            final(self).sound_on.spec_value() == ram@[old(self).sound_on.spec_address() as int],
            final(self).sound_on.spec_address() == old(self).sound_on.spec_address(),
            final(self).sound_length.spec_value() == ram@[old(self).sound_length.spec_address() as int],
            final(self).sound_length.spec_address() == old(self).sound_length.spec_address(),
            final(self).output_level.spec_value() == ram@[old(self).output_level.spec_address() as int],
            final(self).output_level.spec_address() == old(self).output_level.spec_address(),
            final(self).frequency_lo.spec_value() == ram@[old(self).frequency_lo.spec_address() as int],
            final(self).frequency_lo.spec_address() == old(self).frequency_lo.spec_address(),
            final(self).frequency_hi.spec_value() == ram@[old(self).frequency_hi.spec_address() as int],
            final(self).frequency_hi.spec_address() == old(self).frequency_hi.spec_address(),
    {
        self.sound_on.read_from_ram(ram);
        self.sound_length.read_from_ram(ram);
        self.output_level.read_from_ram(ram);
        self.frequency_lo.read_from_ram(ram);
        self.frequency_hi.read_from_ram(ram);
    }

    /// Stores every sub-register at its address; these writes are never
    /// refused because every address lies above the boot-ROM region.
    pub fn load_in_ram(&self, ram: &mut RAM) -> (r: Option<()>)
        requires
            old(ram).wf(),
            self.wf(),
        ensures
            final(ram).wf(),
            r is Some,
    {
        let r0 = self.sound_on.load_in_ram(ram);
        proof { assert(r0 is Some); }
        let r1 = self.sound_length.load_in_ram(ram);
        proof { assert(r1 is Some); }
        let r2 = self.output_level.load_in_ram(ram);
        proof { assert(r2 is Some); }
        let r3 = self.frequency_lo.load_in_ram(ram);
        proof { assert(r3 is Some); }
        let r4 = self.frequency_hi.load_in_ram(ram);
        proof { assert(r4 is Some); }
        Some(())
    }

    /// Resets every sub-register to its power-on value.
    pub fn reset(&mut self)
        ensures
            final(self).sound_on.spec_value() == old(self).sound_on.spec_reset_value(),
            final(self).sound_on.spec_address() == old(self).sound_on.spec_address(),
            final(self).sound_length.spec_value() == old(self).sound_length.spec_reset_value(),
            final(self).sound_length.spec_address() == old(self).sound_length.spec_address(),
            final(self).output_level.spec_value() == old(self).output_level.spec_reset_value(),
            final(self).output_level.spec_address() == old(self).output_level.spec_address(),
            final(self).frequency_lo.spec_value() == old(self).frequency_lo.spec_reset_value(),
            final(self).frequency_lo.spec_address() == old(self).frequency_lo.spec_address(),
            final(self).frequency_hi.spec_value() == old(self).frequency_hi.spec_reset_value(),
            final(self).frequency_hi.spec_address() == old(self).frequency_hi.spec_address(),
    {
        self.sound_on.reset();
        self.sound_length.reset();
        self.output_level.reset();
        self.frequency_lo.reset();
        self.frequency_hi.reset();
    }
}

pub struct Channel4Registers {
    pub sound_length: Channel4SoundLengthRegister,
    pub volume_envelope: Channel4VolumeEnvelopeRegister,
    pub polynomial_counter: Channel4PolynomialCounterRegister,
    pub counter_consecutive: Channel4CounterConsecutiveRegister,
}

impl Channel4Registers {
    pub fn new() -> (r: Self)
        ensures
            r.wf(),
    {
        Channel4Registers {
            sound_length: Channel4SoundLengthRegister::new(),
            volume_envelope: Channel4VolumeEnvelopeRegister::new(),
            polynomial_counter: Channel4PolynomialCounterRegister::new(),
            counter_consecutive: Channel4CounterConsecutiveRegister::new(),
        }
    }

    /// Each sub-register sits at its own hardware address, above the
    /// boot-ROM region.
    pub open spec fn wf(&self) -> bool {
        self.sound_length.spec_address() > 0xFF && self.volume_envelope.spec_address() > 0xFF && self.polynomial_counter.spec_address() > 0xFF && self.counter_consecutive.spec_address() > 0xFF
    }

    /// Refreshes every sub-register from memory.
    pub fn read_from_ram(&mut self, ram: &RAM)
        requires
            ram.wf(),
        ensures
            final(self).sound_length.spec_value() == ram@[old(self).sound_length.spec_address() as int],
            final(self).sound_length.spec_address() == old(self).sound_length.spec_address(),
            final(self).volume_envelope.spec_value() == ram@[old(self).volume_envelope.spec_address() as int],
            final(self).volume_envelope.spec_address() == old(self).volume_envelope.spec_address(),
            final(self).polynomial_counter.spec_value() == ram@[old(self).polynomial_counter.spec_address() as int],
            final(self).polynomial_counter.spec_address() == old(self).polynomial_counter.spec_address(),
            final(self).counter_consecutive.spec_value() == ram@[old(self).counter_consecutive.spec_address() as int],
            final(self).counter_consecutive.spec_address() == old(self).counter_consecutive.spec_address(),
    {
        self.sound_length.read_from_ram(ram);
        self.volume_envelope.read_from_ram(ram);
        self.polynomial_counter.read_from_ram(ram);
        self.counter_consecutive.read_from_ram(ram);
    }

    /// Stores every sub-register at its address; these writes are never
    /// refused because every address lies above the boot-ROM region.
    pub fn load_in_ram(&self, ram: &mut RAM) -> (r: Option<()>)
        requires
            old(ram).wf(),
            self.wf(),
        ensures
            final(ram).wf(),
            r is Some,
    {
        let r0 = self.sound_length.load_in_ram(ram);
        proof { assert(r0 is Some); }
        let r1 = self.volume_envelope.load_in_ram(ram);
        proof { assert(r1 is Some); }
        let r2 = self.polynomial_counter.load_in_ram(ram);
        proof { assert(r2 is Some); }
        let r3 = self.counter_consecutive.load_in_ram(ram);
        proof { assert(r3 is Some); }
        Some(())
    }

    /// Resets every sub-register to its power-on value.
    pub fn reset(&mut self)
        ensures
            final(self).sound_length.spec_value() == old(self).sound_length.spec_reset_value(),
            final(self).sound_length.spec_address() == old(self).sound_length.spec_address(),
            final(self).volume_envelope.spec_value() == old(self).volume_envelope.spec_reset_value(),
            final(self).volume_envelope.spec_address() == old(self).volume_envelope.spec_address(),
            final(self).polynomial_counter.spec_value() == old(self).polynomial_counter.spec_reset_value(),
            final(self).polynomial_counter.spec_address() == old(self).polynomial_counter.spec_address(),
            final(self).counter_consecutive.spec_value() == old(self).counter_consecutive.spec_reset_value(),
            final(self).counter_consecutive.spec_address() == old(self).counter_consecutive.spec_address(),
    {
        self.sound_length.reset();
        self.volume_envelope.reset();
        self.polynomial_counter.reset();
        self.counter_consecutive.reset();
    }
}

/// Every sound register the synthesizer reads, grouped for one refresh.
pub struct SoundRegisters {
    pub channel_1: Channel1Registers,
    pub channel_2: Channel2Registers,
    pub channel_3: Channel3Registers,
    pub channel_4: Channel4Registers,
    pub channel_control: ChannelControlRegister,
    pub sound_output_selection: SoundOutputSelectionRegister,
    pub sound_on_off: SoundOnOffRegister,
}

impl SoundRegisters {
    /// Each register sits at its own hardware address, above the boot-ROM
    /// region.
    pub open spec fn wf(&self) -> bool {
        self.channel_1.wf() && self.channel_2.wf() && self.channel_3.wf() && self.channel_4.wf() && self.channel_control.spec_address() > 0xFF && self.sound_output_selection.spec_address() > 0xFF && self.sound_on_off.spec_address() > 0xFF
    }

    pub fn new() -> (r: Self)
        ensures
            r.wf(),
    {
        SoundRegisters {
            channel_1: Channel1Registers::new(),
            channel_2: Channel2Registers::new(),
            channel_3: Channel3Registers::new(),
            channel_4: Channel4Registers::new(),
            channel_control: ChannelControlRegister::new(),
            sound_output_selection: SoundOutputSelectionRegister::new(),
            sound_on_off: SoundOnOffRegister::new(),
        }
    }

    /// Refreshes every sound register from memory.
    pub fn read_from_ram(&mut self, ram: &RAM)
        requires
            ram.wf(),
        ensures
            final(self).wf() == old(self).wf(),
    {
        self.channel_1.read_from_ram(ram);
        self.channel_2.read_from_ram(ram);
        self.channel_3.read_from_ram(ram);
        self.channel_4.read_from_ram(ram);
        self.channel_control.read_from_ram(ram);
        self.sound_output_selection.read_from_ram(ram);
        self.sound_on_off.read_from_ram(ram);
    }

    /// Stores every sound register at its address; never refused.
    pub fn load_in_ram(&self, ram: &mut RAM) -> (r: Option<()>)
        requires
            old(ram).wf(),
            self.wf(),
        ensures
            final(ram).wf(),
            r is Some,
    {
        let r0 = self.channel_1.load_in_ram(ram);
        proof { assert(r0 is Some); }
        let r1 = self.channel_2.load_in_ram(ram);
        proof { assert(r1 is Some); }
        let r2 = self.channel_3.load_in_ram(ram);
        proof { assert(r2 is Some); }
        let r3 = self.channel_4.load_in_ram(ram);
        proof { assert(r3 is Some); }
        let r4 = self.channel_control.load_in_ram(ram);
        proof { assert(r4 is Some); }
        let r5 = self.sound_output_selection.load_in_ram(ram);
        proof { assert(r5 is Some); }
        let r6 = self.sound_on_off.load_in_ram(ram);
        proof { assert(r6 is Some); }
        Some(())
    }

    /// Resets every sound register to its power-on value.
    pub fn reset(&mut self)
        ensures
            final(self).wf() == old(self).wf(),
    {
        self.channel_1.reset();
        self.channel_2.reset();
        self.channel_3.reset();
        self.channel_4.reset();
        self.channel_control.reset();
        self.sound_output_selection.reset();
        self.sound_on_off.reset();
    }
}

} // verus!
