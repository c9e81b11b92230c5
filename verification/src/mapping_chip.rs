//! Cartridge bank-switching: the mapping-chip behaviour that decides which
//! ROM and RAM banks are visible, with a pass-through chip for bare
//! cartridges and the MBC1 bank controller.

use vstd::prelude::*;

verus! {

/// One 16 KiB bank of cartridge memory and the address it is mapped at.
pub struct MemoryBank {
    pub address: u16,
    pub contents: [u8; 16384],
}

impl MemoryBank {
    pub fn new(address: u16) -> (r: Self)
        ensures
            r.address == address,
            forall|i: int| 0 <= i < 16384 ==> r.contents@[i] == 0,
    {
        MemoryBank { address, contents: [0;16384] }
    }
}

/// What a cartridge mapping chip decides: whether a write selects a ROM or
/// RAM bank or the banking mode, and which banks are currently visible.
pub trait MappingChip: Sized {
    fn is_selecting_chip_rom(&mut self, address: u16, value: u8) -> bool;

    fn is_selecting_chip_ram(&mut self, address: u16, value: u8) -> bool;

    fn get_selected_rom_bank(&self) -> MemoryBank;

    fn get_base_rom_bank(&self) -> MemoryBank;

    fn get_selected_ram_bank(&self) -> MemoryBank;

    fn is_ram_enabled(&self) -> bool;

    fn is_selecting_mode(&mut self, address: u16, value: u8) -> bool;

    fn new() -> Self;
}

/// A pass-through chip for cartridges without a bank controller: nothing is
/// ever selected, and the single ROM bank carries the cartridge header.
#[derive(Clone, Copy)]
pub struct FakeChip {}

impl MappingChip for FakeChip {
    fn is_selecting_chip_rom(&mut self, _address: u16, _value: u8) -> bool {
        false
    }

    fn is_selecting_chip_ram(&mut self, _address: u16, _value: u8) -> bool {
        false
    }

    fn get_selected_rom_bank(&self) -> MemoryBank {
        let mut bank = MemoryBank::new(0x0000);
        let header: [u8; 48] = [
            0xCE, 0xED, 0x66, 0x66, 0xCC, 0x0D, 0x00, 0x0B, 0x03, 0x73, 0x00, 0x83, 0x00, 0x0C,
            0x00, 0x0D, 0x00, 0x08, 0x11, 0x1F, 0x88, 0x89, 0x00, 0x0E, 0xDC, 0xCC, 0x6E, 0xE6,
            0xDD, 0xDD, 0xD9, 0x99, 0xBB, 0xBB, 0x67, 0x63, 0x6E, 0x0E, 0xEC, 0xCC, 0xDD, 0xDC,
            0x99, 0x9F, 0xBB, 0xB9, 0x33, 0x3E,
        ];
        let mut i: usize = 0;
        while i < 48
            invariant
                i <= 48,
            decreases 48 - i,
        {
            bank.contents[0x0104 + i] = header[i];
            i = i + 1;
        }
        bank.contents[0x014D] = 0xE7;
        bank.contents[0x0100] = 0x00;
        bank.contents[0x0101] = 0xC3;
        bank.contents[0x0102] = 0x50;
        bank.contents[0x0103] = 0x01;
        bank
    }

    fn get_base_rom_bank(&self) -> MemoryBank {
        self.get_selected_rom_bank()
    }

    fn get_selected_ram_bank(&self) -> MemoryBank {
        MemoryBank::new(0x0000)
    }

    fn is_ram_enabled(&self) -> bool {
        false
    }

    fn is_selecting_mode(&mut self, _address: u16, _value: u8) -> bool {
        false
    }

    fn new() -> Self {
        FakeChip {  }
    }
}

/// The two banking modes of the MBC1 controller.
#[derive(Clone, Copy)]
pub enum MemoryMode {
    ROM,
    RAM,
}

pub const MBC1_RAM_ENABLE_RANGE_START: u16 = 0x0000;

pub const MBC1_RAM_ENABLE_RANGE_END: u16 = 0x1FFF;

pub const MBC1_BANK1_RANGE_START: u16 = 0x2000;

pub const MBC1_BANK1_RANGE_END: u16 = 0x3FFF;

pub const MBC1_BANK2_RANGE_START: u16 = 0x4000;

pub const MBC1_BANK2_RANGE_END: u16 = 0x5FFF;

pub const MBC1_MODE_RANGE_START: u16 = 0x6000;

pub const MBC1_MODE_RANGE_END: u16 = 0x7FFF;

/// The MBC1 bank controller: a 5-bit ROM bank number, a 2-bit second bank
/// field, a RAM enable, and a mode switch, each written through its own
/// address window.
#[derive(Clone, Copy)]
pub struct MBC1 {
    rom_bank: u8,
    ram_bank: u8,
    ram_enabled: bool,
    mode: MemoryMode,
}

impl MappingChip for MBC1 {
    fn is_selecting_chip_rom(&mut self, address: u16, value: u8) -> bool {
        if address >= MBC1_BANK1_RANGE_START && address <= MBC1_BANK1_RANGE_END {
            let mut bank = value & 0x1F;
            if bank == 0 {
                bank = 1;
            }
            self.rom_bank = self.rom_bank | bank;
            return true;
        }
        match self.mode {
            MemoryMode::ROM => {
                if address >= MBC1_BANK2_RANGE_START && address <= MBC1_BANK2_RANGE_END {
                    let bank = (value & 0x03) << 5;
                    self.rom_bank = (self.rom_bank & 0x1F) | bank;
                    return true;
                }
            },
            _ => {},
        }
        false
    }

    fn is_selecting_mode(&mut self, address: u16, value: u8) -> bool {
        if address >= MBC1_MODE_RANGE_START && address <= MBC1_MODE_RANGE_END {
            self.mode = if value & 0x01 == 0 {
                MemoryMode::ROM
            } else {
                MemoryMode::RAM
            };
            return true;
        }
        false
    }

    fn is_ram_enabled(&self) -> bool {
        self.ram_enabled
    }

    fn is_selecting_chip_ram(&mut self, address: u16, value: u8) -> bool {
        if self.ram_enabled {
            if address >= MBC1_BANK2_RANGE_START && address <= MBC1_BANK2_RANGE_END {
                match self.mode {
                    MemoryMode::RAM => {
                        let bank = value & 0x03;
                        self.ram_bank = bank;
                        return true;
                    },
                    _ => {},
                }
            }
        }
        false
    }

    fn get_base_rom_bank(&self) -> MemoryBank {
        MemoryBank::new(0x4000)
    }

    fn get_selected_ram_bank(&self) -> MemoryBank {
        MemoryBank::new(0x4000)
    }

    fn get_selected_rom_bank(&self) -> MemoryBank {
        MemoryBank::new(0xA000)
    }

    fn new() -> Self {
        MBC1 { rom_bank: 0, ram_bank: 0, ram_enabled: false, mode: MemoryMode::ROM }
    }
}

/// A mapping chip chosen at run time: either the pass-through chip or an
/// MBC1.
#[derive(Clone, Copy)]
pub enum DynamicMappingChip {
    FakeChip(FakeChip),
    MBC1(MBC1),
}

impl MappingChip for DynamicMappingChip {
    fn is_selecting_chip_rom(&mut self, address: u16, value: u8) -> bool {
        match self {
            DynamicMappingChip::FakeChip(fc) => fc.is_selecting_chip_rom(address, value),
            DynamicMappingChip::MBC1(mbc1) => mbc1.is_selecting_chip_rom(address, value),
        }
    }

    fn is_selecting_chip_ram(&mut self, address: u16, value: u8) -> bool {
        match self {
            DynamicMappingChip::FakeChip(fc) => fc.is_selecting_chip_ram(address, value),
            DynamicMappingChip::MBC1(mbc1) => mbc1.is_selecting_chip_ram(address, value),
        }
    }

    fn get_base_rom_bank(&self) -> MemoryBank {
        match self {
            DynamicMappingChip::FakeChip(fc) => fc.get_base_rom_bank(),
            DynamicMappingChip::MBC1(mbc1) => mbc1.get_base_rom_bank(),
        }
    }

    fn get_selected_rom_bank(&self) -> MemoryBank {
        match self {
            DynamicMappingChip::FakeChip(fc) => fc.get_selected_rom_bank(),
            DynamicMappingChip::MBC1(mbc1) => mbc1.get_selected_rom_bank(),
        }
    }

    fn get_selected_ram_bank(&self) -> MemoryBank {
        match self {
            DynamicMappingChip::FakeChip(fc) => fc.get_selected_ram_bank(),
            DynamicMappingChip::MBC1(mbc1) => mbc1.get_selected_ram_bank(),
        }
    }

    fn is_ram_enabled(&self) -> bool {
        match self {
            DynamicMappingChip::FakeChip(fc) => fc.is_ram_enabled(),
            DynamicMappingChip::MBC1(mbc1) => mbc1.is_ram_enabled(),
        }
    }

    fn is_selecting_mode(&mut self, address: u16, value: u8) -> bool {
        match self {
            DynamicMappingChip::FakeChip(fc) => fc.is_selecting_mode(address, value),
            DynamicMappingChip::MBC1(mbc1) => mbc1.is_selecting_mode(address, value),
        }
    }

    fn new() -> Self {
        DynamicMappingChip::FakeChip(MappingChip::new())
    }
}

} // verus!
