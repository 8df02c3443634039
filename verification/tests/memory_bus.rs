use gameboy::cartridge::{CartridgeError, CartridgeType};
use gameboy::joypad::Key;
use gameboy::memory::Memory;
use gameboy::tile_info::TileType;

fn cartridge(banks: usize, type_code: u8, rom_code: u8, ram_code: u8) -> Vec<u8> {
    let mut image = vec![0u8; 0x4000 * banks];
    for bank in 0..banks {
        image[0x4000 * bank] = bank as u8;
        image[0x4000 * bank + 0x3FFF] = 0xB0 + bank as u8;
    }
    image[0x147] = type_code;
    image[0x148] = rom_code;
    image[0x149] = ram_code;
    image
}

fn idle(memory: &mut Memory, accesses: usize) {
    for _ in 0..accesses {
        memory.read(0xC000);
    }
}

#[test]
fn test_power_on_state() {
    let memory = Memory::new();
    assert!(memory.using_boot_rom());
    assert_eq!(memory.mbc.rom_bank, 1);
    assert_eq!(memory.mbc.cartridge_type, CartridgeType::Rom);
    assert_eq!(memory.lcd.lcd_stat, 1);
    assert_eq!(memory.timer.timer_clock, 1024);
    assert_eq!(memory.switchable_rom.len(), 0);
    assert!(memory.rom.iter().all(|byte| *byte == 0));

    let memory = Memory::default();
    assert!(memory.using_boot_rom());
    assert_eq!(memory.enabled_interupts, 0);
}

#[test]
fn test_boot_overlay_answers_until_disabled() {
    let mut memory = Memory::new();
    let mut boot = [0u8; 0x100];
    boot[0] = 0xAA;
    boot[0xFF] = 0xAB;
    memory.load_boot_rom(&boot);
    memory.rom[0] = 0x55;
    memory.rom[0xFF] = 0x56;
    memory.rom[0x100] = 0x57;

    assert_eq!(memory.read(0x0000), 0xAA);
    assert_eq!(memory.read(0x00FF), 0xAB);
    assert_eq!(memory.read(0x0100), 0x57);

    memory.write(0xFF50, 0);
    assert!(!memory.using_boot_rom());
    assert_eq!(memory.read(0x0000), 0x55);
    assert_eq!(memory.read(0x00FF), 0x56);

    // nothing brings the overlay back
    memory.write(0xFF50, 1);
    memory.write(0xFF46, 0x00);
    assert_eq!(memory.read(0x0000), 0x55);
}

#[test]
fn test_any_value_disables_the_boot_overlay() {
    for value in 0..=255u8 {
        let mut memory = Memory::new();
        memory.boot_rom[0] = 1;
        memory.rom[0] = 2;
        assert_eq!(memory.read(0), 1);
        memory.write(0xFF50, value);
        assert_eq!(memory.read(0), 2);
    }
}

#[test]
fn test_rom_bank_select() {
    let mut memory = Memory::new();
    assert_eq!(memory.load_cartridge(&cartridge(4, 1, 1, 0)), Ok(()));
    memory.write(0xFF50, 1);

    assert_eq!(memory.read(0x0000), 0);
    assert_eq!(memory.read(0x3FFF), 0xB0);
    assert_eq!(memory.read(0x4000), 1);
    assert_eq!(memory.read(0x7FFF), 0xB1);

    memory.write(0x2000, 2);
    assert_eq!(memory.read(0x4000), 2);
    memory.write(0x3FFF, 3);
    assert_eq!(memory.read(0x7FFF), 0xB3);

    // bank 0 cannot be selected
    memory.write(0x2000, 0);
    assert_eq!(memory.mbc.rom_bank, 1);
    assert_eq!(memory.read(0x4000), 1);
    memory.write(0x2000, 0x20);
    assert_eq!(memory.read(0x4000), 1);

    // only the low five bits count
    memory.write(0x2000, 0xE3);
    assert_eq!(memory.read(0x4000), 3);

    // a bank that the cartridge does not have
    memory.write(0x2000, 5);
    assert_eq!(memory.read(0x4000), 0xFF);
}

#[test]
fn test_rom_bank_select_for_every_value() {
    let mut memory = Memory::new();
    for value in 0..=255u8 {
        memory.write(0x2100, value);
        let expected = if value & 0x1F == 0 { 1 } else { (value & 0x1F) as u16 };
        assert_eq!(memory.mbc.rom_bank, expected);
        assert_ne!(memory.mbc.rom_bank, 0);
    }
}

#[test]
fn test_switchable_rom_without_cartridge_reads_open_bus() {
    let mut memory = Memory::new();
    assert_eq!(memory.read(0x4000), 0xFF);
    assert_eq!(memory.read(0x7FFF), 0xFF);
}

#[test]
fn test_external_ram() {
    let mut memory = Memory::new();
    assert_eq!(memory.load_cartridge(&cartridge(2, 1, 0, 3)), Ok(()));
    assert_eq!(memory.mbc.max_ram_bank, 4);

    // disabled: reads 0xFF, writes dropped
    assert_eq!(memory.read(0xA000), 0xFF);
    memory.write(0xA000, 0x12);
    memory.write(0x0000, 0x0A);
    assert_eq!(memory.read(0xA000), 0x00);

    memory.write(0xA000, 0x12);
    memory.write(0xBFFF, 0x34);
    assert_eq!(memory.read(0xA000), 0x12);
    assert_eq!(memory.read(0xBFFF), 0x34);

    memory.write(0x4000, 1);
    assert_eq!(memory.read(0xA000), 0x00);
    memory.write(0xA000, 0x56);
    memory.write(0x4000, 0);
    assert_eq!(memory.read(0xA000), 0x12);
    memory.write(0x5FFF, 1);
    assert_eq!(memory.read(0xA000), 0x56);

    // a bank that the cartridge does not have
    memory.write(0x4000, 4);
    assert_eq!(memory.read(0xA000), 0xFF);
    memory.write(0x4000, 0);

    // the low nibble 0xA enables, anything else disables
    memory.write(0x1FFF, 0x3A);
    assert_eq!(memory.read(0xA000), 0x12);
    memory.write(0x0000, 0x0B);
    assert_eq!(memory.read(0xA000), 0xFF);
    memory.write(0xA000, 0x99);
    memory.write(0x0000, 0x0A);
    assert_eq!(memory.read(0xA000), 0x12);
}

#[test]
fn test_external_ram_absent() {
    let mut memory = Memory::new();
    memory.write(0x0000, 0x0A);
    memory.write(0xA000, 0x12);
    assert_eq!(memory.read(0xA000), 0xFF);

    // with fewer than four banks the bank register cannot be set
    assert_eq!(memory.load_cartridge(&cartridge(2, 1, 0, 2)), Ok(()));
    memory.write(0x4000, 3);
    assert_eq!(memory.mbc.ram_bank, 0);
    memory.write(0xA000, 0x12);
    assert_eq!(memory.read(0xA000), 0x12);
}

#[test]
fn test_banking_mode_select_is_ignored() {
    let mut memory = Memory::new();
    assert_eq!(memory.load_cartridge(&cartridge(4, 1, 1, 3)), Ok(()));
    memory.write(0x2000, 2);
    memory.write(0x4000, 1);
    memory.write(0x6000, 1);
    memory.write(0x7FFF, 0);
    assert_eq!(memory.mbc.rom_bank, 2);
    assert_eq!(memory.mbc.ram_bank, 1);
    assert!(!memory.mbc.ram_enable);
}

#[test]
fn test_work_ram_and_its_echo() {
    let mut memory = Memory::new();
    memory.write(0xC123, 7);
    assert_eq!(memory.read(0xC123), 7);
    assert_eq!(memory.read(0xE123), 7);
    memory.write(0xE000, 9);
    assert_eq!(memory.read(0xC000), 9);
    memory.write(0xFDFF, 11);
    assert_eq!(memory.read(0xDDFF), 11);
    memory.write(0xDFFF, 13);
    assert_eq!(memory.read(0xDFFF), 13);
}

#[test]
fn test_video_ram_sprite_table_and_high_ram() {
    let mut memory = Memory::new();
    memory.write(0x8000, 1);
    memory.write(0x9FFF, 2);
    memory.write(0xFE00, 3);
    memory.write(0xFE9F, 4);
    memory.write(0xFF80, 5);
    memory.write(0xFFFE, 6);
    memory.write(0xFFFF, 0x1F);
    assert_eq!(memory.read(0x8000), 1);
    assert_eq!(memory.read(0x9FFF), 2);
    assert_eq!(memory.vram[0x1FFF], 2);
    assert_eq!(memory.read(0xFE00), 3);
    assert_eq!(memory.read(0xFE9F), 4);
    assert_eq!(memory.read(0xFF80), 5);
    assert_eq!(memory.read(0xFFFE), 6);
    assert_eq!(memory.hram[0x7E], 6);
    assert_eq!(memory.read(0xFFFF), 0x1F);
    assert_eq!(memory.enabled_interupts, 0x1F);
}

#[test]
fn test_prohibited_window() {
    let mut memory = Memory::new();
    memory.write(0xFEA0, 5);
    memory.write(0xFEFF, 6);
    assert_eq!(memory.read(0xFEA0), 0);
    assert_eq!(memory.read(0xFEFF), 0);
}

#[test]
fn test_plain_io_registers() {
    let mut memory = Memory::new();
    memory.write(0xFF40, 0x91);
    memory.write(0xFF47, 0xE4);
    memory.write(0xFF0F, 0x1F);
    memory.write(0xFF7F, 0x42);
    assert_eq!(memory.read(0xFF40), 0x91);
    assert_eq!(memory.io_registers[0x40], 0x91);
    assert_eq!(memory.read(0xFF47), 0xE4);
    assert_eq!(memory.read(0xFF0F), 0x1F);
    assert_eq!(memory.read(0xFF7F), 0x42);
}

#[test]
fn test_scroll_and_window_registers() {
    let mut memory = Memory::new();
    memory.write(0xFF42, 5);
    memory.write(0xFF43, 6);
    memory.write(0xFF4A, 7);
    memory.write(0xFF4B, 8);
    assert_eq!(memory.lcd.scy, 5);
    assert_eq!(memory.lcd.scx, 6);
    assert_eq!(memory.lcd.wy, 7);
    assert_eq!(memory.lcd.wx, 8);
    assert_eq!(memory.read(0xFF42), 5);
    assert_eq!(memory.read(0xFF43), 6);
    assert_eq!(memory.read(0xFF4A), 7);
    assert_eq!(memory.read(0xFF4B), 8);
    // they are not kept in the register file
    assert_eq!(memory.io_registers[0x42], 0);
}

#[test]
fn test_read_only_registers() {
    let mut memory = Memory::new();
    memory.write(0xFF44, 77);
    memory.write(0xFF41, 0xFF);
    assert_eq!(memory.read(0xFF44), 0);
    assert_eq!(memory.read(0xFF41), 1);
}

#[test]
fn test_every_access_costs_four_ticks() {
    let mut memory = Memory::new();
    memory.read(0x0000);
    assert_eq!(memory.timer.divider_register, 4);
    assert_eq!(memory.lcd.time, 4);
    memory.write(0xC000, 1);
    assert_eq!(memory.timer.divider_register, 8);
    assert_eq!(memory.lcd.time, 8);
    memory.step();
    assert_eq!(memory.timer.divider_register, 9);
}

#[test]
fn test_divider_register() {
    let mut memory = Memory::new();
    idle(&mut memory, 62);
    assert_eq!(memory.read(0xFF04), 0);
    assert_eq!(memory.read(0xFF04), 1);
    idle(&mut memory, 63);
    assert_eq!(memory.read(0xFF04), 2);

    memory.write(0xFF04, 0x55);
    assert_eq!(memory.timer.divider_register, 0);
    assert_eq!(memory.read(0xFF04), 0);
}

#[test]
fn test_divider_wraps() {
    let mut memory = Memory::new();
    memory.timer.divider_register = 0xFFFE;
    memory.step();
    assert_eq!(memory.timer.divider_register, 0xFFFF);
    memory.step();
    assert_eq!(memory.timer.divider_register, 0);
}

#[test]
fn test_timer_counts_and_reloads() {
    let mut memory = Memory::new();
    memory.write(0xFF06, 0xF0);
    memory.write(0xFF05, 0xFE);
    assert_eq!(memory.read(0xFF06), 0xF0);
    // stopped: the counter does not move
    idle(&mut memory, 300);
    assert_eq!(memory.read(0xFF05), 0xFE);

    // enabled, one step every 16 ticks
    memory.write(0xFF07, 0b0000_0101);
    assert_eq!(memory.read(0xFF07), 0b0000_0101);
    idle(&mut memory, 2);
    assert_eq!(memory.read(0xFF05), 0xFF);
    assert_eq!(memory.io_registers[0x0F] & 0b100, 0);

    // past 255 it reloads from the modulo and requests the interrupt
    idle(&mut memory, 3);
    assert_eq!(memory.read(0xFF05), 0xF0);
    assert_eq!(memory.io_registers[0x0F] & 0b100, 0b100);

    // and goes on counting from there, requesting nothing
    memory.write(0xFF0F, 0);
    memory.write(0xFF05, 0xF0);
    idle(&mut memory, 3);
    assert_eq!(memory.read(0xFF05), 0xF1);
    assert_eq!(memory.io_registers[0x0F] & 0b100, 0);
}

#[test]
fn test_timer_clock_select() {
    for (control, period) in [(0b100u8, 1024usize), (0b101, 16), (0b110, 64), (0b111, 256)] {
        let mut memory = Memory::new();
        memory.write(0xFF07, control);
        assert_eq!(memory.timer.timer_clock as usize, period);
        assert!(memory.timer.timer_enable);
        idle(&mut memory, period / 4 - 1);
        assert_eq!(memory.timer.timer_counter, 0);
        idle(&mut memory, 1);
        assert_eq!(memory.timer.timer_counter, 1);
        idle(&mut memory, period / 4);
        assert_eq!(memory.timer.timer_counter, 2);
    }
    let mut memory = Memory::new();
    memory.write(0xFF07, 0b011);
    assert!(!memory.timer.timer_enable);
    assert_eq!(memory.timer.timer_clock, 256);
}

#[test]
fn test_scanline_counter() {
    let mut memory = Memory::new();
    idle(&mut memory, 113);
    assert_eq!(memory.lcd.ly, 0);
    assert_eq!(memory.read(0xFF44), 1);
    assert_eq!(memory.lcd.time, 0);

    // line 144 requests the vertical-blank interrupt
    idle(&mut memory, 114 * 142);
    assert_eq!(memory.lcd.ly, 143);
    assert_eq!(memory.io_registers[0x0F] & 1, 0);
    idle(&mut memory, 114);
    assert_eq!(memory.lcd.ly, 144);
    assert_eq!(memory.io_registers[0x0F] & 1, 1);
    assert!(!memory.lcd.frame_happened);

    // after line 153 the counter wraps and raises the frame signal
    memory.write(0xFF0F, 0);
    idle(&mut memory, 114 * 9 - 1);
    assert_eq!(memory.lcd.ly, 153);
    assert!(!memory.lcd.frame_happened);
    idle(&mut memory, 114);
    assert_eq!(memory.lcd.ly, 0);
    assert!(memory.lcd.frame_happened);
    assert_eq!(memory.io_registers[0x0F] & 1, 0);
}

#[test]
fn test_lcd_status_modes() {
    let mut memory = Memory::new();
    idle(&mut memory, 20);
    assert_eq!(memory.lcd.lcd_stat & 3, 1);
    assert_eq!(memory.read(0xFF41) & 3, 3);
    idle(&mut memory, 56);
    assert_eq!(memory.lcd.lcd_stat & 3, 3);
    idle(&mut memory, 1);
    assert_eq!(memory.lcd.lcd_stat & 3, 0);
    idle(&mut memory, 36);
    assert_eq!(memory.lcd.time, 0);
    assert_eq!(memory.lcd.lcd_stat & 3, 2);
    idle(&mut memory, 114 * 143);
    assert_eq!(memory.lcd.ly, 144);
    assert_eq!(memory.lcd.lcd_stat & 3, 1);
}

#[test]
fn test_dma_transfer() {
    let mut memory = Memory::new();
    for i in 0..0xA0u16 {
        memory.write(0xC000 + i, i as u8 + 1);
    }
    assert_eq!(memory.timer.divider_register, 640);
    memory.write(0xFF46, 0xC0);
    for i in 0..0xA0u16 {
        assert_eq!(memory.sprite_attribute_table[i as usize], i as u8 + 1);
    }
    assert_eq!(memory.read(0xFE9F), 0xA0);
    // the trigger value is not kept
    assert_eq!(memory.io_registers[0x46], 0);

    let sprites = memory.read_oam();
    assert_eq!(sprites.len(), 40);
    assert_eq!(sprites[0].y, 1);
    assert_eq!(sprites[0].x, 2);
    assert_eq!(sprites[0].index, 3);
    assert_eq!(sprites[0].palette, 0);
    assert_eq!(sprites[39].y, 157);
    assert_eq!(sprites[39].x, 158);
    assert_eq!(sprites[39].index, 159);
    assert!(sprites[39].bg_over_obj);
    assert!(!sprites[39].y_flip);
    assert!(sprites[39].x_flip);
}

#[test]
fn test_dma_transfer_takes_time() {
    let mut memory = Memory::new();
    memory.write(0xFF46, 0x80);
    // four ticks for the write that starts it, four for each byte
    assert_eq!(memory.timer.divider_register, 4 + 160 * 4);
}

#[test]
fn test_joypad_register() {
    let mut memory = Memory::new();
    assert_eq!(memory.read(0xFF00), 0xFF);

    memory.set_joypad_inputs(&vec![Key::S, Key::Down]);
    memory.write(0xFF00, 0x10);
    assert_eq!(memory.read(0xFF00), 0b1101_1110);
    memory.write(0xFF00, 0x20);
    assert_eq!(memory.read(0xFF00), 0b1110_0111);
    memory.write(0xFF00, 0x30);
    assert_eq!(memory.read(0xFF00), 0xFF);
    // where both groups are asked for, the action buttons answer
    memory.write(0xFF00, 0x00);
    assert_eq!(memory.read(0xFF00), 0b1101_1110);

    memory.set_joypad_inputs(&vec![]);
    assert_eq!(memory.read(0xFF00), 0b1101_1111);
}

#[test]
fn test_load_cartridge() {
    let mut memory = Memory::new();
    let mut image = cartridge(2, 1, 0, 2);
    image.truncate(0x4000 + 10);
    image[0x4000 + 9] = 0x77;
    assert_eq!(memory.load_cartridge(&image), Ok(()));
    assert_eq!(memory.mbc.cartridge_type, CartridgeType::Mbc1);
    assert_eq!(memory.mbc.max_rom_bank, 2);
    assert_eq!(memory.mbc.max_ram_bank, 1);
    assert_eq!(memory.rom[0x147], 1);
    assert_eq!(memory.rom[0x3FFF], 0xB0);
    assert_eq!(memory.switchable_rom.len(), 1);
    assert_eq!(memory.switchable_rom[0][0], 1);
    assert_eq!(memory.switchable_rom[0][9], 0x77);
    assert_eq!(memory.switchable_rom[0][10], 0);
    assert_eq!(memory.switchable_rom[0][0x3FFF], 0);

    // a second cartridge takes the place of the first
    assert_eq!(memory.load_cartridge(&cartridge(8, 0, 2, 4)), Ok(()));
    assert_eq!(memory.mbc.cartridge_type, CartridgeType::Rom);
    assert_eq!(memory.mbc.max_rom_bank, 8);
    assert_eq!(memory.mbc.max_ram_bank, 16);
    assert_eq!(memory.switchable_rom.len(), 7);
    assert_eq!(memory.switchable_rom[6][0], 7);
    assert_eq!(memory.switchable_rom[6][0x3FFF], 0xB7);
}

#[test]
fn test_load_cartridge_header_codes() {
    for (code, banks) in [(0u8, 2u16), (1, 4), (2, 8), (3, 16), (4, 32)] {
        let mut memory = Memory::new();
        assert_eq!(memory.load_cartridge(&cartridge(1, 0, code, 0)), Ok(()));
        assert_eq!(memory.mbc.max_rom_bank, banks);
        assert_eq!(memory.switchable_rom.len(), banks as usize - 1);
    }
    for (code, banks) in [(0u8, 0u8), (1, 0), (2, 1), (3, 4), (4, 16), (5, 8), (9, 8)] {
        let mut memory = Memory::new();
        assert_eq!(memory.load_cartridge(&cartridge(1, 0, 0, code)), Ok(()));
        assert_eq!(memory.mbc.max_ram_bank, banks);
    }
    // a type code other than 0 and 1 leaves the kind as it was
    let mut memory = Memory::new();
    assert_eq!(memory.load_cartridge(&cartridge(1, 1, 0, 0)), Ok(()));
    assert_eq!(memory.load_cartridge(&cartridge(1, 0x13, 0, 0)), Ok(()));
    assert_eq!(memory.mbc.cartridge_type, CartridgeType::Mbc1);
}

#[test]
fn test_load_cartridge_refuses() {
    let mut memory = Memory::new();
    memory.rom[0] = 0x42;
    assert_eq!(memory.load_cartridge(&vec![]), Err(CartridgeError::TooShort));
    assert_eq!(memory.load_cartridge(&vec![1u8; 0x3FFF]), Err(CartridgeError::TooShort));
    assert_eq!(
        memory.load_cartridge(&cartridge(1, 1, 5, 0)),
        Err(CartridgeError::UnsupportedRomSize)
    );
    assert_eq!(
        memory.load_cartridge(&cartridge(1, 1, 0xFF, 0)),
        Err(CartridgeError::UnsupportedRomSize)
    );
    assert_eq!(memory.rom[0], 0x42);
    assert_eq!(memory.mbc.max_rom_bank, 2);
    assert_eq!(memory.switchable_rom.len(), 0);
}

#[test]
fn test_vram_read_tile_addressing() {
    let mut memory = Memory::new();
    for i in 0..0x2000usize {
        memory.vram[i] = (i / 16) as u8 ^ (i as u8 & 0x0F);
    }
    let expected = |first: usize| -> [u8; 16] {
        let mut tile = [0u8; 16];
        for i in 0..16 {
            tile[i] = ((first + i) / 16) as u8 ^ ((first + i) as u8 & 0x0F);
        }
        tile
    };

    // sprites count from the start of video RAM
    let tile = memory.vram_read_tile(TileType::Obj, 3);
    assert_eq!(tile.tile, expected(0x30));
    assert_eq!(tile.tile_type, TileType::Obj);
    assert_eq!(memory.vram_read_tile(TileType::Obj, 255).tile, expected(0xFF0));

    // the other layers are signed around 0x1000 while bit 4 is clear
    assert_eq!(memory.vram_read_tile(TileType::Background, 0).tile, expected(0x1000));
    assert_eq!(memory.vram_read_tile(TileType::Background, 127).tile, expected(0x17F0));
    assert_eq!(memory.vram_read_tile(TileType::Window, 128).tile, expected(0x0800));
    assert_eq!(memory.vram_read_tile(TileType::Window, 255).tile, expected(0x0FF0));

    memory.io_registers[0x40] = 0b0001_0000;
    assert_eq!(memory.vram_read_tile(TileType::Background, 0).tile, expected(0));
    assert_eq!(memory.vram_read_tile(TileType::Window, 200).tile, expected(200 * 16));
    assert_eq!(memory.vram_read_tile(TileType::Window, 200).tile_type, TileType::Window);
}

#[test]
fn test_tile_map_selection() {
    let mut memory = Memory::new();
    memory.vram[0x1800] = 1;
    memory.vram[0x1800 + 33] = 2;
    memory.vram[0x1C00] = 3;
    memory.vram[0x1FFF] = 4;

    assert_eq!(memory.read_bg_tile_map()[0][0], 1);
    assert_eq!(memory.read_bg_tile_map()[1][1], 2);
    assert_eq!(memory.read_window_tile_map()[0][0], 1);

    memory.io_registers[0x40] = 0b0000_1000;
    assert_eq!(memory.read_bg_tile_map()[0][0], 3);
    assert_eq!(memory.read_bg_tile_map()[31][31], 4);
    assert_eq!(memory.read_window_tile_map()[0][0], 1);

    memory.io_registers[0x40] = 0b0100_0000;
    assert_eq!(memory.read_bg_tile_map()[0][0], 1);
    assert_eq!(memory.read_window_tile_map()[0][0], 3);
    assert_eq!(memory.read_window_tile_map()[31][31], 4);
}
