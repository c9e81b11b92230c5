//! The memory-mapped LCD registers: control, status, scroll, current line
//! and the background palette, each a byte mirrored at its own address.

use crate::ram::MemoryRegister;
use crate::ram::RAM;
use vstd::prelude::*;

verus! {

pub const LCD_CONTROL_REGISTER_ADDRESS: u16 = 0xFF40;

pub const LCD_STATUS_REGISTER_ADDRESS: u16 = 0xFF41;

pub const LCD_SCROLL_Y_ADDRESS: u16 = 0xFF42;

pub const LCD_SCROLL_X_ADDRESS: u16 = 0xFF43;

pub const LY_REGISTER_ADDRESS: u16 = 0xFF44;

pub const BG_PALETTE_ADDRESS: u16 = 0xFF47;

pub struct LCDControlRegister {
    value: u8,
    address: u16,
}

impl LCDControlRegister {
    pub fn new() -> (r: Self)
        ensures
            r.spec_address() == LCD_CONTROL_REGISTER_ADDRESS,
            r.spec_value() == 0,
            r.spec_reset_value() == 0,
    {
        LCDControlRegister { address: LCD_CONTROL_REGISTER_ADDRESS, value: 0x0 }
    }

    /// Bit 7: whether the LCD is on.
    pub fn get_lcd_display_enable(&self) -> (r: bool)
        ensures
            r == (self.spec_value() & 0x80 != 0),
    {
        self.value & 0x80 > 0
    }

    /// Bit 5: whether the window layer is shown.
    pub fn get_window_display_enable(&self) -> (r: bool)
        ensures
            r == (self.spec_value() & 0x20 != 0),
    {
        self.value & 0x20 > 0
    }

    /// Bit 1: whether sprites are shown.
    pub fn get_sprite_display_enable(&self) -> (r: bool)
        ensures
            r == (self.spec_value() & 0x02 != 0),
    {
        self.value & 0x02 > 0
    }

    /// Bit 0: whether the background layer is shown.
    pub fn get_bg_display_enable(&self) -> (r: bool)
        ensures
            r == (self.spec_value() & 0x01 != 0),
    {
        self.value & 0x01 > 0
    }

    /// Bit 3: which background tile map is used, as 0 or 1.
    pub fn get_bg_table_address(&self) -> (r: u8)
        ensures
            r == ((self.spec_value() & 0x08) >> 3),
            r <= 1,
    {
        proof {
            let v = self.spec_value();
            assert(((v & 0x08) >> 3) <= 1) by (bit_vector);
        }
        (self.value & 0x08) >> 3
    }

    /// Bit 4: which tile-data table is used, as 0 or 1.
    pub fn get_bg_window_tiledata_address(&self) -> (r: u8)
        ensures
            r == ((self.spec_value() & 0x10) >> 4),
            r <= 1,
    {
        proof {
            let v = self.spec_value();
            assert(((v & 0x10) >> 4) <= 1) by (bit_vector);
        }
        (self.value & 0x10) >> 4
    }
}

impl MemoryRegister for LCDControlRegister {
    closed spec fn spec_address(&self) -> u16 {
        self.address
    }

    closed spec fn spec_value(&self) -> u8 {
        self.value
    }

    closed spec fn spec_reset_value(&self) -> u8 {
        0x00
    }

    fn get_address(&self) -> u16 {
        self.address
    }

    fn get_value(&self) -> u8 {
        self.value
    }

    fn set_value(&mut self, value: u8) {
        self.value = value;
    }

    fn reset(&mut self) {
        self.value = 0x00;
    }

    fn load_in_ram(&self, ram: &mut RAM) -> Option<()> {
        ram.set_at(self.address, self.value)
    }

    fn read_from_ram(&mut self, ram: &RAM) {
        let v = ram.get_at(self.address);
        self.value = v.unwrap();
    }
}

pub struct LCDStatusRegister {
    value: u8,
    address: u16,
}

impl LCDStatusRegister {
    pub fn new() -> (r: Self)
        ensures
            r.spec_address() == LCD_STATUS_REGISTER_ADDRESS,
            r.spec_value() == 0,
            r.spec_reset_value() == 0,
    {
        LCDStatusRegister { address: LCD_STATUS_REGISTER_ADDRESS, value: 0x0 }
    }

    pub fn set_status(&mut self, status: u8)
        ensures
            final(self).spec_value() == status,
            final(self).spec_address() == old(self).spec_address(),
            final(self).spec_reset_value() == old(self).spec_reset_value(),
    {
        self.value = status;
    }
}

impl MemoryRegister for LCDStatusRegister {
    closed spec fn spec_address(&self) -> u16 {
        self.address
    }

    closed spec fn spec_value(&self) -> u8 {
        self.value
    }

    closed spec fn spec_reset_value(&self) -> u8 {
        0x00
    }

    fn get_address(&self) -> u16 {
        self.address
    }

    fn get_value(&self) -> u8 {
        self.value
    }

    fn set_value(&mut self, value: u8) {
        self.value = value;
    }

    fn reset(&mut self) {
        self.value = 0x00;
    }

    fn load_in_ram(&self, ram: &mut RAM) -> Option<()> {
        ram.set_at(self.address, self.value)
    }

    fn read_from_ram(&mut self, ram: &RAM) {
        let v = ram.get_at(self.address);
        self.value = v.unwrap();
    }
}

pub struct LYRegister {
    value: u8,
    address: u16,
}

impl LYRegister {
    pub fn new() -> (r: Self)
        ensures
            r.spec_address() == LY_REGISTER_ADDRESS,
            r.spec_value() == 0,
            r.spec_reset_value() == 0,
    {
        LYRegister { address: LY_REGISTER_ADDRESS, value: 0x0 }
    }

    pub fn set_line(&mut self, line: u8)
        ensures
            final(self).spec_value() == line,
            final(self).spec_address() == old(self).spec_address(),
            final(self).spec_reset_value() == old(self).spec_reset_value(),
    {
        self.value = line
    }
}

impl MemoryRegister for LYRegister {
    closed spec fn spec_address(&self) -> u16 {
        self.address
    }

    closed spec fn spec_value(&self) -> u8 {
        self.value
    }

    closed spec fn spec_reset_value(&self) -> u8 {
        0x00
    }

    fn get_address(&self) -> u16 {
        self.address
    }

    fn get_value(&self) -> u8 {
        self.value
    }

    fn set_value(&mut self, value: u8) {
        self.value = value;
    }

    fn reset(&mut self) {
        self.value = 0x00;
    }

    fn load_in_ram(&self, ram: &mut RAM) -> Option<()> {
        ram.set_at(self.address, self.value)
    }

    fn read_from_ram(&mut self, ram: &RAM) {
        let v = ram.get_at(self.address);
        self.value = v.unwrap();
    }
}

pub struct ScrollXRegister {
    value: u8,
    address: u16,
}

impl ScrollXRegister {
    pub fn new() -> (r: Self)
        ensures
            r.spec_address() == LCD_SCROLL_X_ADDRESS,
            r.spec_value() == 0,
            r.spec_reset_value() == 0,
    {
        ScrollXRegister { address: LCD_SCROLL_X_ADDRESS, value: 0x0 }
    }
}

impl MemoryRegister for ScrollXRegister {
    closed spec fn spec_address(&self) -> u16 {
        self.address
    }

    closed spec fn spec_value(&self) -> u8 {
        self.value
    }

    closed spec fn spec_reset_value(&self) -> u8 {
        0x00
    }

    fn get_address(&self) -> u16 {
        self.address
    }

    fn get_value(&self) -> u8 {
        self.value
    }

    fn set_value(&mut self, value: u8) {
        self.value = value;
    }

    fn reset(&mut self) {
        self.value = 0x00;
    }

    fn load_in_ram(&self, ram: &mut RAM) -> Option<()> {
        ram.set_at(self.address, self.value)
    }

    fn read_from_ram(&mut self, ram: &RAM) {
        let v = ram.get_at(self.address);
        self.value = v.unwrap();
    }
}

pub struct ScrollYRegister {
    value: u8,
    address: u16,
}

impl ScrollYRegister {
    pub fn new() -> (r: Self)
        ensures
            r.spec_address() == LCD_SCROLL_Y_ADDRESS,
            r.spec_value() == 0,
            r.spec_reset_value() == 0,
    {
        ScrollYRegister { address: LCD_SCROLL_Y_ADDRESS, value: 0x0 }
    }
}

impl MemoryRegister for ScrollYRegister {
    closed spec fn spec_address(&self) -> u16 {
        self.address
    }

    closed spec fn spec_value(&self) -> u8 {
        self.value
    }

    closed spec fn spec_reset_value(&self) -> u8 {
        0x00
    }

    fn get_address(&self) -> u16 {
        self.address
    }

    fn get_value(&self) -> u8 {
        self.value
    }

    fn set_value(&mut self, value: u8) {
        self.value = value;
    }

    fn reset(&mut self) {
        self.value = 0x00;
    }

    fn load_in_ram(&self, ram: &mut RAM) -> Option<()> {
        ram.set_at(self.address, self.value)
    }

    fn read_from_ram(&mut self, ram: &RAM) {
        let v = ram.get_at(self.address);
        self.value = v.unwrap();
    }
}

pub struct BGPaletteRegister {
    value: u8,
    address: u16,
}

impl BGPaletteRegister {
    pub fn new() -> (r: Self)
        ensures
            r.spec_address() == BG_PALETTE_ADDRESS,
            r.spec_value() == 0,
            r.spec_reset_value() == 0,
    {
        BGPaletteRegister { address: BG_PALETTE_ADDRESS, value: 0x0 }
    }

    /// The shade index (0..4) that background color code 0 maps to.
    pub fn palette_color_0(&self) -> (r: usize)
        ensures
            r == (self.spec_value() & 0x03) as usize,
            r < 4,
    {
        proof {
            let v = self.spec_value();
            assert((v & 0x03) < 4) by (bit_vector);
        }
        (self.value & 0x03) as usize
    }

    /// The shade index that background color code 1 maps to.
    pub fn palette_color_1(&self) -> (r: usize)
        ensures
            r == ((self.spec_value() >> 2) & 0x03) as usize,
            r < 4,
    {
        proof {
            let v = self.spec_value();
            assert(((v >> 2) & 0x03) < 4) by (bit_vector);
        }
        ((self.value >> 2) & 0x03) as usize
    }

    /// The shade index that background color code 2 maps to.
    pub fn palette_color_2(&self) -> (r: usize)
        ensures
            r == ((self.spec_value() >> 4) & 0x03) as usize,
            r < 4,
    {
        proof {
            let v = self.spec_value();
            assert(((v >> 4) & 0x03) < 4) by (bit_vector);
        }
        ((self.value >> 4) & 0x03) as usize
    }

    /// The shade index that background color code 3 maps to.
    pub fn palette_color_3(&self) -> (r: usize)
        ensures
            r == ((self.spec_value() >> 6) & 0x03) as usize,
            r < 4,
    {
        proof {
            let v = self.spec_value();
            assert(((v >> 6) & 0x03) < 4) by (bit_vector);
        }
        ((self.value >> 6) & 0x03) as usize
    }

    /// All four shade indexes, lowest color code first.
    pub fn palette_colors(&self) -> (r: [usize; 4])
        ensures
            r@ =~= seq![
                (self.spec_value() & 0x03) as usize,
                ((self.spec_value() >> 2) & 0x03) as usize,
                ((self.spec_value() >> 4) & 0x03) as usize,
                ((self.spec_value() >> 6) & 0x03) as usize,
            ],
            forall|i: int| 0 <= i < 4 ==> r@[i] < 4,
    {
        [
            self.palette_color_0(),
            self.palette_color_1(),
            self.palette_color_2(),
            self.palette_color_3(),
        ]
    }
}

impl MemoryRegister for BGPaletteRegister {
    closed spec fn spec_address(&self) -> u16 {
        self.address
    }

    closed spec fn spec_value(&self) -> u8 {
        self.value
    }

    closed spec fn spec_reset_value(&self) -> u8 {
        0x00
    }

    fn get_address(&self) -> u16 {
        self.address
    }

    fn get_value(&self) -> u8 {
        self.value
    }

    fn set_value(&mut self, value: u8) {
        self.value = value;
    }

    fn reset(&mut self) {
        self.value = 0x00;
    }

    fn load_in_ram(&self, ram: &mut RAM) -> Option<()> {
        ram.set_at(self.address, self.value)
    }

    fn read_from_ram(&mut self, ram: &RAM) {
        let v = ram.get_at(self.address);
        self.value = v.unwrap();
    }
}

} // verus!
