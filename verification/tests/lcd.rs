use gbemulator::lcd::BGTile;
use gbemulator::lcd::LCDMode;
use gbemulator::lcd::LCDStateMachine;
use gbemulator::lcd_registers::BGPaletteRegister;
use gbemulator::lcd_registers::LCDControlRegister;
use gbemulator::lcd_registers::LCDStatusRegister;
use gbemulator::lcd_registers::LYRegister;
use gbemulator::ram::MemoryRegister;
use gbemulator::ram::RAM;

#[test]
fn test_lcd_control_register() {
    let mut lcd_control_register = LCDControlRegister::new();
    lcd_control_register.set_value(0x91);
    assert_eq!(lcd_control_register.get_lcd_display_enable(), true);
    assert_eq!(lcd_control_register.get_bg_window_tiledata_address(), 0x01);
    assert_eq!(lcd_control_register.get_bg_table_address(), 0x00);
    assert_eq!(lcd_control_register.get_bg_display_enable(), true);
}

#[test]
fn test_lcd_registers_roundtrip() {
    let mut ram = RAM::new();
    let mut status = LCDStatusRegister::new();
    status.set_status(0x22);
    status.load_in_ram(&mut ram).unwrap();
    assert_eq!(ram.get_at(0xFF41).unwrap(), 0x22);
    let mut ly = LYRegister::new();
    ly.set_line(99);
    ly.load_in_ram(&mut ram).unwrap();
    assert_eq!(ram.get_at(0xFF44).unwrap(), 99);
    let mut back = LYRegister::new();
    back.read_from_ram(&ram);
    assert_eq!(back.get_value(), 99);
}

#[test]
fn test_bg_palette() {
    let mut palette = BGPaletteRegister::new();
    palette.set_value(0b11_10_01_00);
    assert_eq!(palette.palette_color_0(), 0);
    assert_eq!(palette.palette_color_1(), 1);
    assert_eq!(palette.palette_color_2(), 2);
    assert_eq!(palette.palette_color_3(), 3);
    assert_eq!(palette.palette_colors(), [0, 1, 2, 3]);
}

#[test]
fn test_lcd_mode_cycle() {
    assert_eq!(LCDMode::OAM.get_next_state(), LCDMode::TX);
    assert_eq!(LCDMode::TX.get_next_state(), LCDMode::HBLANK);
    assert_eq!(LCDMode::HBLANK.get_next_state(), LCDMode::OAM);
    assert_eq!(LCDMode::VBLANK.get_next_state(), LCDMode::OAM);
    assert_eq!(LCDMode::OAM.get_status_byte(), 0x22);
    assert_eq!(LCDMode::VBLANK.get_vertical_line(), 153);
    assert_eq!(LCDMode::HBLANK.get_vertical_line(), 0);
    assert_eq!(LCDMode::OAM.get_mode_duration(), 77);
}

#[test]
fn test_lcd_state_machine_advances() {
    let mut machine = LCDStateMachine::new();
    assert_eq!(*machine.get_active_mode(), LCDMode::OAM);
    // Run the OAM mode out; it hands over to pixel transfer.
    for _ in 0..78 {
        machine.next(false);
    }
    assert_eq!(*machine.get_active_mode(), LCDMode::TX);
    // A due vertical blank preempts whatever mode is active.
    machine.next(true);
    assert_eq!(*machine.get_active_mode(), LCDMode::VBLANK);
    assert_eq!(machine.get_current_line(), 153);
}

#[test]
fn test_bg_tile_decodes_pixels() {
    let mut ram = RAM::new();
    // Tile index 1 in the map at 0x9800; its data sits at 0x8000 + 16.
    ram.set_at(0x9800, 1).unwrap();
    // Row 0: low-bit byte 0b1010_0000, high-bit byte 0b1100_0000:
    // pixel codes 3, 2, 1, 0 across the first four columns.
    ram.set_at(0x8010, 0b1010_0000).unwrap();
    ram.set_at(0x8011, 0b1100_0000).unwrap();
    let palette = {
        let mut p = BGPaletteRegister::new();
        p.set_value(0b11_10_01_00); // identity palette
        p
    };
    let tile = BGTile::read_from_ram(&ram, 0x9800, 0x8000, 0, &palette);
    assert_eq!(tile.pixel_data[0], 0); // code 3 -> shade 0
    assert_eq!(tile.pixel_data[1], 64); // code 2 -> shade 64
    assert_eq!(tile.pixel_data[2], 192); // code 1 -> shade 192
    assert_eq!(tile.pixel_data[3], 255); // code 0 -> shade 255
}
