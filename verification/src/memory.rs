use vstd::prelude::*;
use vstd::array::spec_array_update;
use crate::cartridge::{cartridge_byte, rom_banks_for, CartridgeError, Mbc};
use crate::cpu::CpuBus;
use crate::joypad::{ButtonType, Joypad, Key};
use crate::lcd::Lcd;
use crate::sprite_attribute::SpriteAttribute;
use crate::tile_info::{TileInfo, TileType};
use crate::timer::Timer;

verus! {

/// The address space of the console, with the bank controller, the timer
/// and the scanline counter that the bus drives on every access.
#[derive(Debug)]
pub struct Memory {
    pub boot_rom: [u8; 0x100],
    pub use_boot_rom: bool,
    /// 16 KiB ROM Bank 00
    /// * Addressed from `0x0000` to `0x3FFF`
    pub rom: [u8; 0x4000],
    /// 16 KiB ROM Bank 01 ~ NN
    /// * Addressed from `0x4000` to `0x7FFF`
    pub switchable_rom: Vec<[u8; 0x4000]>,
    /// 8 KiB Video RAM (VRAM)
    /// * Addressed from `0x8000` to `0x9FFF`
    pub vram: [u8; 0x2000],
    /// 8 KiB External RAM, with room for sixteen banks; the bank controller
    /// knows how many of them the cartridge has
    /// * Addressed from `0xA000` to `0xBFFF`
    pub switchable_ram: [[u8; 0x2000]; 16],
    /// 8 KiB Work RAM (WRAM)
    /// * Addressed from `0xC000` to `0xDFFF`
    pub wram: [u8; 0x2000],
    /// Sprite Attribute Table
    /// * also Object Attribute Memory (OAM)
    /// * Addressed from `0xFE00` to `0xFE9F`
    pub sprite_attribute_table: [u8; 0xA0],
    /// I/O Registers
    /// * Addressed from `0xFF00` to `0xFF7F`
    pub io_registers: [u8; 0x80],
    /// High RAM (HRAM)
    /// * Addressed from `0xFF80` to `0xFFFE`
    pub hram: [u8; 0x7F],
    /// Interrupt Enable Register
    /// * Addressed at `0xFFFF`
    pub enabled_interupts: u8,
    pub interrupts_enabled: bool,
    pub mbc: Mbc,
    pub joypad: Joypad,
    pub timer: Timer,
    pub lcd: Lcd,
    pub debug: bool,
}

/// The button group that a write of `data` to the joypad register selects: a
/// clear bit 5 selects the action buttons, else a clear bit 4 the direction
/// buttons.
pub open spec fn selected_buttons(data: u8) -> ButtonType {
    if data & 0x20 == 0 {
        ButtonType::Action
    } else if data & 0x10 == 0 {
        ButtonType::Direction
    } else {
        ButtonType::Unselected
    }
}

/// Where in video RAM the sixteen bytes of tile `index` start. Sprites, and
/// the other layers while bit 4 of the LCD control register is set, count
/// from the start of video RAM; else the index is signed around 0x1000.
pub open spec fn tile_address(tile_type: TileType, index: u8, lcdc: u8) -> int {
    if tile_type == TileType::Obj || lcdc & 0b0001_0000 == 0b0001_0000 {
        index * 16
    } else if index >= 128 {
        0x0800 + (index - 128) * 16
    } else {
        0x1000 + index * 16
    }
}

/// Where in video RAM the tile map starts that the bit `mask` of the LCD
/// control register selects.
pub open spec fn tile_map_start(lcdc: u8, mask: u8) -> int {
    if lcdc & mask == mask {
        0x1C00
    } else {
        0x1800
    }
}

impl Memory {
    /// The state in which the console powers on: every byte zero, the boot
    /// overlay active, no switchable ROM bank present.
    pub open spec fn is_power_on(self) -> bool {
        &&& forall|i: int| 0 <= i < 0x100 ==> self.boot_rom[i] == 0
        &&& self.use_boot_rom
        &&& forall|i: int| 0 <= i < 0x4000 ==> self.rom[i] == 0
        &&& self.switchable_rom@.len() == 0
        &&& forall|i: int| 0 <= i < 0x2000 ==> self.vram[i] == 0
        &&& forall|b: int, i: int|
            0 <= b < 16 && 0 <= i < 0x2000 ==> #[trigger] self.switchable_ram[b][i] == 0
        &&& forall|i: int| 0 <= i < 0x2000 ==> self.wram[i] == 0
        &&& forall|i: int| 0 <= i < 0xA0 ==> self.sprite_attribute_table[i] == 0
        &&& forall|i: int| 0 <= i < 0x80 ==> self.io_registers[i] == 0
        &&& forall|i: int| 0 <= i < 0x7F ==> self.hram[i] == 0
        &&& self.enabled_interupts == 0
        &&& self.interrupts_enabled
        &&& self.mbc == Mbc::power_on()
        &&& self.joypad == Joypad::released(ButtonType::Unselected)
        &&& self.timer == Timer::power_on()
        &&& self.lcd == Lcd::power_on()
        &&& !self.debug
    }

    /// The bus with the interrupt request bits of `mask` raised.
    pub open spec fn requesting(self, mask: u8) -> Memory {
        Memory {
            io_registers: spec_array_update(
                self.io_registers,
                0x0F,
                self.io_registers[0x0F] | mask,
            ),
            ..self
        }
    }

    /// The bus one clock tick later: the timer and the scanline counter
    /// move, and each raises its interrupt request bit where it is due.
    pub open spec fn stepped(self) -> Memory {
        let moved = Memory { timer: self.timer.stepped(), lcd: self.lcd.stepped(), ..self };
        let timed = if self.timer.overflows() {
            moved.requesting(0b0000_0100)
        } else {
            moved
        };
        if self.lcd.enters_vblank() {
            timed.requesting(0b0000_0001)
        } else {
            timed
        }
    }

    /// The bus four clock ticks later: what the clock does during one access.
    pub open spec fn ticked(self) -> Memory {
        self.stepped().stepped().stepped().stepped()
    }

    /// What the switchable ROM window holds at `offset`: the byte of the
    /// selected bank, or 0xFF where the cartridge has no such bank.
    pub open spec fn banked_rom(self, offset: int) -> u8 {
        if 1 <= self.mbc.rom_bank <= self.switchable_rom@.len() {
            self.switchable_rom@[self.mbc.rom_bank - 1][offset]
        } else {
            0xFF
        }
    }

    /// What a read of an I/O register yields: the joypad, the timer and the
    /// LCD answer for their registers, the register file for the others.
    pub open spec fn load_io(self, address: u16) -> u8 {
        if address == 0xFF00 {
            self.joypad.register_value() as u8
        } else if Timer::owns(address) {
            self.timer.load(address)
        } else if Lcd::owns(address) {
            self.lcd.load(address)
        } else {
            self.io_registers[address - 0xFF00]
        }
    }

    /// The byte that `address` resolves to, the clock left aside. Below
    /// 0x100 the boot overlay answers while it is active. External RAM that
    /// is disabled or absent reads as 0xFF, the prohibited window above the
    /// sprite attribute table as 0.
    pub open spec fn load(self, address: u16) -> u8 {
        if self.use_boot_rom && address < 0x100 {
            self.boot_rom[address as int]
        } else if address <= 0x3FFF {
            self.rom[address as int]
        } else if address <= 0x7FFF {
            self.banked_rom(address - 0x4000)
        } else if address <= 0x9FFF {
            self.vram[address - 0x8000]
        } else if address <= 0xBFFF {
            if self.mbc.ram_present() {
                self.switchable_ram[self.mbc.ram_bank as int][address - 0xA000]
            } else {
                0xFF
            }
        } else if address <= 0xDFFF {
            self.wram[address - 0xC000]
        } else if address <= 0xFDFF {
            self.wram[address - 0xE000]
        } else if address <= 0xFE9F {
            self.sprite_attribute_table[address - 0xFE00]
        } else if address <= 0xFEFF {
            0
        } else if address <= 0xFF7F {
            self.load_io(address)
        } else if address <= 0xFFFE {
            self.hram[address - 0xFF80]
        } else {
            self.enabled_interupts
        }
    }

    /// The 32 by 32 tile indices of the tile map that bit `mask` of the LCD
    /// control register places.
    pub open spec fn tile_map(self, mask: u8, map: [[u8; 32]; 32]) -> bool {
        forall|row: int, col: int|
            0 <= row < 32 && 0 <= col < 32 ==> #[trigger] map[row][col] == self.vram[tile_map_start(
                self.io_registers[0x40],
                mask,
            ) + row * 32 + col]
    }

    /// The background tile map, which bit 3 of the LCD control register
    /// places.
    pub open spec fn background_map(self) -> [[u8; 32]; 32] {
        choose|map: [[u8; 32]; 32]| self.tile_map(0b0000_1000, map)
    }

    /// The window tile map, which bit 6 of the LCD control register places.
    pub open spec fn window_map(self) -> [[u8; 32]; 32] {
        choose|map: [[u8; 32]; 32]| self.tile_map(0b0100_0000, map)
    }

    /// The byte that a read of `address` yields: the clock runs first.
    pub open spec fn value_at(self, address: u16) -> u8 {
        self.ticked().load(address)
    }

    /// The bus with `data` in slot `index` of the sprite attribute table.
    pub open spec fn with_sprite_byte(self, index: int, data: u8) -> Memory {
        Memory {
            sprite_attribute_table: spec_array_update(self.sprite_attribute_table, index, data),
            ..self
        }
    }

    /// The bus after a DMA transfer that has `done` bytes behind it: the
    /// remaining bytes of the 160 are copied one by one from `base` on into
    /// the sprite attribute table. Each byte takes four clock ticks, so that
    /// the write that starts the transfer lasts as long as the transfer.
    pub open spec fn dma_from(self, base: u16, done: int) -> Memory
        decreases 160 - done,
    {
        if 0 <= done < 160 {
            self.ticked().with_sprite_byte(
                done,
                self.value_at((base + done) as u16),
            ).dma_from(base, done + 1)
        } else {
            self
        }
    }

    /// The bus after `data` went to an I/O register, the clock left aside.
    /// A write to 0xFF00 selects the button group; the timer and the LCD take
    /// the writes to their registers; the timer control register is kept in
    /// the register file as well; a write to 0xFF46 runs a DMA transfer from
    /// `data * 0x100`, and lasts until the transfer is over; any write to
    /// 0xFF50 switches the boot overlay off.
    pub open spec fn stored_io(self, address: u16, data: u8) -> Memory {
        if address == 0xFF00 {
            Memory {
                joypad: Joypad { selected_buttons: selected_buttons(data), ..self.joypad },
                ..self
            }
        } else if Timer::owns(address) {
            Memory { timer: self.timer.stored(address, data), ..self }
        } else if address == 0xFF07 {
            Memory {
                io_registers: spec_array_update(self.io_registers, 0x07, data),
                timer: self.timer.controlled(data),
                ..self
            }
        } else if Lcd::owns(address) {
            Memory { lcd: self.lcd.stored(address, data), ..self }
        } else if address == 0xFF46 {
            self.dma_from((data * 0x100) as u16, 0)
        } else if address == 0xFF50 {
            Memory { use_boot_rom: false, ..self }
        } else {
            Memory {
                io_registers: spec_array_update(self.io_registers, address - 0xFF00, data),
                ..self
            }
        }
    }

    /// The bus after `data` went to `address`, the clock left aside. A write
    /// to the ROM area goes to the bank controller; a write to external RAM
    /// that is disabled or absent, or to the prohibited window, is dropped.
    pub open spec fn stored(self, address: u16, data: u8) -> Memory {
        if address <= 0x7FFF {
            Memory { mbc: self.mbc.written(address, data), ..self }
        } else if address <= 0x9FFF {
            Memory { vram: spec_array_update(self.vram, address - 0x8000, data), ..self }
        } else if address <= 0xBFFF {
            if self.mbc.ram_present() {
                Memory {
                    switchable_ram: spec_array_update(
                        self.switchable_ram,
                        self.mbc.ram_bank as int,
                        spec_array_update(
                            self.switchable_ram[self.mbc.ram_bank as int],
                            address - 0xA000,
                            data,
                        ),
                    ),
                    ..self
                }
            } else {
                self
            }
        } else if address <= 0xDFFF {
            Memory { wram: spec_array_update(self.wram, address - 0xC000, data), ..self }
        } else if address <= 0xFDFF {
            Memory { wram: spec_array_update(self.wram, address - 0xE000, data), ..self }
        } else if address <= 0xFE9F {
            self.with_sprite_byte(address - 0xFE00, data)
        } else if address <= 0xFEFF {
            self
        } else if address <= 0xFF7F {
            self.stored_io(address, data)
        } else if address <= 0xFFFE {
            Memory { hram: spec_array_update(self.hram, address - 0xFF80, data), ..self }
        } else {
            Memory { enabled_interupts: data, ..self }
        }
    }

    /// The bus after a write of `data` to `address`: the clock runs first.
    pub open spec fn written(self, address: u16, data: u8) -> Memory {
        self.ticked().stored(address, data)
    }

    /// The bus as it is at power-on, with no boot ROM and no cartridge in
    /// place yet.
    pub fn new() -> (r: Memory)
        ensures
            r.is_power_on(),
    {
        Memory {
            boot_rom: [0; 0x100],
            use_boot_rom: true,
            rom: [0; 0x4000],
            switchable_rom: Vec::new(),
            vram: [0; 0x2000],
            switchable_ram: [[0; 0x2000]; 16],
            wram: [0; 0x2000],
            sprite_attribute_table: [0; 0xA0],
            io_registers: [0; 0x80],
            hram: [0; 0x7F],
            enabled_interupts: 0,
            interrupts_enabled: true,
            mbc: Mbc::new(),
            joypad: Joypad::default(),
            timer: Timer::new(),
            lcd: Lcd::new(),
            debug: false,
        }
    }

    /// Tells whether the boot overlay still answers reads below 0x100.
    pub fn using_boot_rom(&self) -> (r: bool)
        ensures
            r == self.use_boot_rom,
    {
        self.use_boot_rom
    }

    fn request_interrupt(&mut self, mask: u8)
        ensures
            *final(self) == old(self).requesting(mask),
    {
        let requested: u8 = self.io_registers[0x0F];
        self.io_registers[0x0F] = requested | mask;
    }

    /// Advances the clock by one tick.
    pub fn step(&mut self)
        ensures
            *final(self) == old(self).stepped(),
    {
        let overflow = self.timer.step();
        let vblank = self.lcd.step();
        if overflow {
            self.request_interrupt(0b0000_0100);
        }
        if vblank {
            self.request_interrupt(0b0000_0001);
        }
    }

    fn tick(&mut self)
        ensures
            *final(self) == old(self).ticked(),
    {
        self.step();
        self.step();
        self.step();
        self.step();
    }

    fn read_io(&self, address: u16) -> (val: u8)
        requires
            0xFF00 <= address <= 0xFF7F,
        ensures
            val == self.load_io(address),
    {
        if address == 0xFF00 {
            self.joypad.as_byte()
        } else if 0xFF04 <= address && address <= 0xFF06 {
            self.timer.read(address)
        } else if (0xFF41 <= address && address <= 0xFF44) || address == 0xFF4A || address
            == 0xFF4B {
            self.lcd.read(address)
        } else {
            self.io_registers[(address - 0xFF00) as usize]
        }
    }

    fn resolve(&self, address: u16) -> (val: u8)
        ensures
            val == self.load(address),
    {
        if self.use_boot_rom && address < 0x100 {
            self.boot_rom[address as usize]
        } else if address <= 0x3FFF {
            self.rom[address as usize]
        } else if address <= 0x7FFF {
            let bank: usize = self.mbc.rom_bank as usize;
            if 1 <= bank && bank <= self.switchable_rom.len() {
                self.switchable_rom[bank - 1][(address - 0x4000) as usize]
            } else {
                0xFF
            }
        } else if address <= 0x9FFF {
            self.vram[(address - 0x8000) as usize]
        } else if address <= 0xBFFF {
            if self.mbc.ram_enable && self.mbc.ram_bank < self.mbc.max_ram_bank
                && self.mbc.ram_bank < 16 {
                self.switchable_ram[self.mbc.ram_bank as usize][(address - 0xA000) as usize]
            } else {
                0xFF
            }
        } else if address <= 0xDFFF {
            self.wram[(address - 0xC000) as usize]
        } else if address <= 0xFDFF {
            self.wram[(address - 0xE000) as usize]
        } else if address <= 0xFE9F {
            self.sprite_attribute_table[(address - 0xFE00) as usize]
        } else if address <= 0xFEFF {
            0
        } else if address <= 0xFF7F {
            self.read_io(address)
        } else if address <= 0xFFFE {
            self.hram[(address - 0xFF80) as usize]
        } else {
            self.enabled_interupts
        }
    }

    /// Reads the byte at `address`. The clock advances by four ticks before
    /// the address is resolved.
    pub fn read(&mut self, address: u16) -> (val: u8)
        ensures
            val == old(self).value_at(address),
            *final(self) == old(self).ticked(),
    {
        self.tick();
        self.resolve(address)
    }

    /// Copies the 160 bytes from `start_address * 0x100` on into the sprite
    /// attribute table, four clock ticks for each.
    fn dma_transfer(&mut self, start_address: u8)
        ensures
            *final(self) == old(self).dma_from((start_address * 0x100) as u16, 0),
    {
        let base_address: u16 = start_address as u16 * 0x100;
        let mut offset: u16 = 0;
        while offset < 0xA0
            invariant
                offset <= 0xA0,
                base_address == start_address * 0x100,
                self.dma_from(base_address, offset as int) == old(self).dma_from(base_address, 0),
            decreases 0xA0 - offset,
        {
            let data = self.read(base_address + offset);
            self.sprite_attribute_table[offset as usize] = data;
            offset += 1;
        }
    }

    fn select_buttons(&mut self, data: u8)
        ensures
            *final(self) == (Memory {
                joypad: Joypad { selected_buttons: selected_buttons(data), ..old(self).joypad },
                ..*old(self)
            }),
    {
        // Only the upper bits are writable; the lower four are the buttons.
        if (data & 0x20) == 0 {
            self.joypad.selected_buttons = ButtonType::Action;
        } else if (data & 0x10) == 0 {
            self.joypad.selected_buttons = ButtonType::Direction;
        } else {
            self.joypad.selected_buttons = ButtonType::Unselected;
        }
    }

    fn write_io(&mut self, address: u16, data: u8)
        requires
            0xFF00 <= address <= 0xFF7F,
        ensures
            *final(self) == old(self).stored_io(address, data),
    {
        if address == 0xFF00 {
            self.select_buttons(data);
        } else if 0xFF04 <= address && address <= 0xFF06 {
            self.timer.write(address, data);
        } else if address == 0xFF07 {
            self.io_registers[0x07] = data;
            self.timer.set_control(data);
        } else if (0xFF41 <= address && address <= 0xFF44) || address == 0xFF4A || address
            == 0xFF4B {
            self.lcd.write(address, data);
        } else if address == 0xFF46 {
            self.dma_transfer(data);
        } else if address == 0xFF50 {
            self.use_boot_rom = false;
        } else {
            self.io_registers[(address - 0xFF00) as usize] = data;
        }
    }

    fn store(&mut self, address: u16, data: u8)
        ensures
            *final(self) == old(self).stored(address, data),
    {
        if address <= 0x7FFF {
            self.mbc.write(address, data);
        } else if address <= 0x9FFF {
            self.vram[(address - 0x8000) as usize] = data;
        } else if address <= 0xBFFF {
            if self.mbc.ram_enable && self.mbc.ram_bank < self.mbc.max_ram_bank
                && self.mbc.ram_bank < 16 {
                self.switchable_ram[self.mbc.ram_bank as usize][(address - 0xA000) as usize] =
                    data;
            }
        } else if address <= 0xDFFF {
            self.wram[(address - 0xC000) as usize] = data;
        } else if address <= 0xFDFF {
            // Echo of work RAM
            self.wram[(address - 0xE000) as usize] = data;
        } else if address <= 0xFE9F {
            self.sprite_attribute_table[(address - 0xFE00) as usize] = data;
        } else if address <= 0xFEFF {
            // prohibited window
        } else if address <= 0xFF7F {
            self.write_io(address, data);
        } else if address <= 0xFFFE {
            self.hram[(address - 0xFF80) as usize] = data;
        } else {
            self.enabled_interupts = data;
        }
    }

    /// Writes `data` to `address`. The clock advances by four ticks before
    /// the address is resolved.
    pub fn write(&mut self, address: u16, data: u8)
        ensures
            *final(self) == old(self).written(address, data),
    {
        self.tick();
        self.store(address, data);
    }
}

/// Copies ROM bank `bank` out of a cartridge image, zero where the image
/// has ended.
fn bank_of(contents: &Vec<u8>, bank: usize) -> (data: [u8; 0x4000])
    requires
        bank < 32,
    ensures
        forall|j: int| 0 <= j < 0x4000 ==> data[j] == cartridge_byte(contents@, bank as int, j),
{
    let mut data: [u8; 0x4000] = [0; 0x4000];
    let start: usize = 0x4000 * bank;
    let mut j: usize = 0;
    while j < 0x4000
        invariant
            j <= 0x4000,
            start == 0x4000 * bank,
            bank < 32,
            forall|k: int| 0 <= k < j ==> data[k] == cartridge_byte(contents@, bank as int, k),
        decreases 0x4000 - j,
    {
        data[j] = if start + j < contents.len() {
            contents[start + j]
        } else {
            0
        };
        j += 1;
    }
    data
}

/// Copies the switchable ROM banks, bank 1 first, out of a cartridge image
/// that has `count` banks in all.
fn switchable_banks_of(contents: &Vec<u8>, count: u16) -> (banks: Vec<[u8; 0x4000]>)
    requires
        1 <= count <= 32,
    ensures
        banks@.len() == count - 1,
        forall|b: int, j: int|
            0 <= b < count - 1 && 0 <= j < 0x4000 ==> #[trigger] banks@[b][j] == cartridge_byte(
                contents@,
                b + 1,
                j,
            ),
{
    let mut banks: Vec<[u8; 0x4000]> = Vec::new();
    let mut bank: usize = 1;
    while bank < count as usize
        invariant
            1 <= bank <= count <= 32,
            banks@.len() == bank - 1,
            forall|b: int, j: int|
                0 <= b < bank - 1 && 0 <= j < 0x4000 ==> #[trigger] banks@[b][j] == cartridge_byte(
                    contents@,
                    b + 1,
                    j,
                ),
        decreases count - bank,
    {
        let data = bank_of(contents, bank);
        banks.push(data);
        bank += 1;
    }
    banks
}

fn boot_image(contents: &[u8]) -> (image: [u8; 0x100])
    requires
        contents@.len() == 0x100,
    ensures
        image@ == contents@,
{
    let mut image: [u8; 0x100] = [0; 0x100];
    let mut i: usize = 0;
    while i < 0x100
        invariant
            i <= 0x100,
            contents@.len() == 0x100,
            forall|k: int| 0 <= k < i ==> image[k] == contents@[k],
        decreases 0x100 - i,
    {
        image[i] = contents[i];
        i += 1;
    }
    assert(image@ =~= contents@);
    image
}

impl Memory {
    /// Whether this bus is `before` with the cartridge image `contents`
    /// put in: the fixed bank holds the first 16 KiB, the switchable banks
    /// hold the rest, padded with zeros up to the bank count that the header
    /// names, and the bank controller knows the kind and the sizes that the
    /// header names. Everything else is as it was.
    pub open spec fn holds_cartridge(self, before: Memory, contents: Seq<u8>) -> bool {
        &&& self == Memory {
            rom: self.rom,
            switchable_rom: self.switchable_rom,
            mbc: before.mbc.configured(contents[0x147], contents[0x148], contents[0x149]),
            ..before
        }
        &&& forall|j: int| 0 <= j < 0x4000 ==> self.rom[j] == contents[j]
        &&& self.switchable_rom@.len() == rom_banks_for(contents[0x148]) - 1
        &&& forall|b: int, j: int|
            0 <= b < self.switchable_rom@.len() && 0 <= j < 0x4000
                ==> #[trigger] self.switchable_rom@[b][j] == cartridge_byte(contents, b + 1, j)
    }

    /// Puts the 256 bytes of the boot ROM in place.
    pub fn load_boot_rom(&mut self, contents: &[u8])
        requires
            contents@.len() == 0x100,
        ensures
            final(self).boot_rom@ == contents@,
            *final(self) == (Memory { boot_rom: final(self).boot_rom, ..*old(self) }),
    {
        self.boot_rom = boot_image(contents);
    }

    /// Puts a cartridge image in place. An image shorter than the fixed ROM
    /// bank, or one whose header names more than 32 ROM banks, is refused
    /// and leaves the bus as it was.
    pub fn load_cartridge(&mut self, contents: &Vec<u8>) -> (r: Result<(), CartridgeError>)
        ensures
            contents@.len() < 0x4000 ==> r == Err::<(), CartridgeError>(CartridgeError::TooShort),
            contents@.len() >= 0x4000 && contents@[0x148] > 4 ==> r == Err::<(), CartridgeError>(
                CartridgeError::UnsupportedRomSize,
            ),
            contents@.len() >= 0x4000 && contents@[0x148] <= 4 ==> r.is_ok(),
            r.is_err() ==> *final(self) == *old(self),
            r.is_ok() ==> final(self).holds_cartridge(*old(self), contents@),
    {
        if contents.len() < 0x4000 {
            return Err(CartridgeError::TooShort);
        }
        let cartridge_type: u8 = contents[0x147];
        let rom_size: u8 = contents[0x148];
        let ram_size: u8 = contents[0x149];
        if rom_size > 4 {
            return Err(CartridgeError::UnsupportedRomSize);
        }
        self.mbc.configure(cartridge_type, rom_size, ram_size);
        self.rom = bank_of(contents, 0);
        self.switchable_rom = switchable_banks_of(contents, self.mbc.max_rom_bank);
        Ok(())
    }

    /// Reads the sixteen bytes of tile `index` from video RAM.
    pub fn vram_read_tile(&self, tile_type: TileType, index: u8) -> (info: TileInfo)
        ensures
            info.tile_type == tile_type,
            forall|i: int|
                0 <= i < 16 ==> info.tile[i] == self.vram[tile_address(
                    tile_type,
                    index,
                    self.io_registers[0x40],
                ) + i],
    {
        let lcdc4 = self.io_registers[0x40] & 0b0001_0000 == 0b0001_0000;
        let address: usize = if matches!(tile_type, TileType::Obj) || lcdc4 {
            index as usize * 16
        } else if index >= 128 {
            0x0800 + ((index as usize - 128) * 16)
        } else {
            0x1000 + (index as usize * 16)
        };
        let mut tile: [u8; 16] = [0; 16];
        let mut i: usize = 0;
        while i < 16
            invariant
                i <= 16,
                address + 16 <= 0x2000,
                forall|k: int| 0 <= k < i ==> tile[k] == self.vram[address + k],
            decreases 16 - i,
        {
            tile[i] = self.vram[address + i];
            i += 1;
        }
        TileInfo { tile, tile_type }
    }

    /// There is one tile map for each placing bit.
    proof fn lemma_tile_map_is_unique(self, mask: u8, first: [[u8; 32]; 32], second: [[u8; 32]; 32])
        requires
            self.tile_map(mask, first),
            self.tile_map(mask, second),
        ensures
            first == second,
    {
        assert forall|row: int| 0 <= row < 32 implies first[row] == second[row] by {
            assert forall|col: int| 0 <= col < 32 implies first[row][col] == second[row][col] by {
                assert(first[row][col] == self.vram[tile_map_start(self.io_registers[0x40], mask)
                    + row * 32 + col]);
                assert(second[row][col] == self.vram[tile_map_start(self.io_registers[0x40], mask)
                    + row * 32 + col]);
            }
            assert(first[row] =~= second[row]);
        }
        assert(first =~= second);
    }

    fn read_tile_map(&self, mask: u8) -> (result: [[u8; 32]; 32])
        ensures
            self.tile_map(mask, result),
    {
        let start_address: usize = if self.io_registers[0x40] & mask == mask {
            0x9C00 - 0x8000
        } else {
            0x9800 - 0x8000
        };
        let mut result: [[u8; 32]; 32] = [[0; 32]; 32];
        let mut row: usize = 0;
        while row < 32
            invariant
                row <= 32,
                start_address == tile_map_start(self.io_registers[0x40], mask),
                forall|r: int, c: int|
                    0 <= r < row && 0 <= c < 32 ==> #[trigger] result[r][c] == self.vram[
                        start_address + r * 32 + c
                    ],
            decreases 32 - row,
        {
            let mut line: [u8; 32] = [0; 32];
            let mut col: usize = 0;
            while col < 32
                invariant
                    col <= 32,
                    row < 32,
                    start_address == tile_map_start(self.io_registers[0x40], mask),
                    forall|c: int|
                        0 <= c < col ==> #[trigger] line[c] == self.vram[start_address + row * 32
                            + c],
                decreases 32 - col,
            {
                line[col] = self.vram[start_address + (row * 32) + col];
                col += 1;
            }
            result[row] = line;
            row += 1;
        }
        result
    }

    /// Reads the 32 by 32 tile indices of the background map, which bit 3 of
    /// the LCD control register places.
    pub fn read_bg_tile_map(&self) -> (result: [[u8; 32]; 32])
        ensures
            self.tile_map(0b0000_1000, result),
            result == self.background_map(),
    {
        let result = self.read_tile_map(0b0000_1000);
        proof {
            self.lemma_tile_map_is_unique(0b0000_1000, result, self.background_map());
        }
        result
    }

    /// Reads the 32 by 32 tile indices of the window map, which bit 6 of the
    /// LCD control register places.
    pub fn read_window_tile_map(&self) -> (result: [[u8; 32]; 32])
        ensures
            self.tile_map(0b0100_0000, result),
            result == self.window_map(),
    {
        let result = self.read_tile_map(0b0100_0000);
        proof {
            self.lemma_tile_map_is_unique(0b0100_0000, result, self.window_map());
        }
        result
    }

    /// Reads the forty entries of the sprite attribute table.
    pub fn read_oam(&self) -> (result: Vec<SpriteAttribute>)
        ensures
            result@.len() == 40,
            forall|k: int|
                0 <= k < 40 ==> #[trigger] result@[k] == SpriteAttribute::decode(
                    self.sprite_attribute_table[4 * k],
                    self.sprite_attribute_table[4 * k + 1],
                    self.sprite_attribute_table[4 * k + 2],
                    self.sprite_attribute_table[4 * k + 3],
                ),
    {
        let mut result: Vec<SpriteAttribute> = Vec::new();
        let mut k: usize = 0;
        while k < 40
            invariant
                k <= 40,
                result@.len() == k,
                forall|n: int|
                    0 <= n < k ==> #[trigger] result@[n] == SpriteAttribute::decode(
                        self.sprite_attribute_table[4 * n],
                        self.sprite_attribute_table[4 * n + 1],
                        self.sprite_attribute_table[4 * n + 2],
                        self.sprite_attribute_table[4 * n + 3],
                    ),
            decreases 40 - k,
        {
            let index: usize = 4 * k;
            let y = self.sprite_attribute_table[index];
            let x = self.sprite_attribute_table[index + 1];
            let tile_index = self.sprite_attribute_table[index + 2];
            let flags = self.sprite_attribute_table[index + 3];
            result.push(SpriteAttribute::new(y, x, tile_index, flags));
            k += 1;
        }
        result
    }

    /// Takes the keys that are held down and sets the buttons from them.
    pub fn set_joypad_inputs(&mut self, pressed_keys: &Vec<Key>)
        ensures
            *final(self) == (Memory {
                joypad: old(self).joypad.with_keys(pressed_keys@),
                ..*old(self)
            }),
    {
        self.joypad.set_inputs(pressed_keys);
    }
}

impl CpuBus for Memory {
    open spec fn peek(&self, address: u16) -> u8 {
        self.value_at(address)
    }

    open spec fn after_read(&self, address: u16) -> Memory {
        self.ticked()
    }

    open spec fn after_write(&self, address: u16, val: u8) -> Memory {
        self.written(address, val)
    }

    fn read(&mut self, address: u16) -> (val: u8) {
        Memory::read(self, address)
    }

    fn write(&mut self, address: u16, val: u8) {
        Memory::write(self, address, val)
    }
}

impl Default for Memory {
    fn default() -> (r: Memory)
        ensures
            r.is_power_on(),
    {
        Self::new()
    }
}

} // verus!
