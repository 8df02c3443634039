use vstd::prelude::*;

verus! {

/// The kind of bank controller that a cartridge carries.
#[derive(Debug, Clone, Copy, PartialEq, Eq, Structural)]
pub enum CartridgeType {
    Rom,
    Mbc1,
}

/// Why a cartridge image was not taken.
#[derive(Debug, Clone, Copy, PartialEq, Eq, Structural)]
pub enum CartridgeError {
    /// The image does not hold the whole fixed ROM bank.
    TooShort,
    /// The header asks for more ROM banks than the five bits of the
    /// bank-select register can reach.
    UnsupportedRomSize,
}

/// The state of the bank controller.
#[derive(Debug)]
pub struct Mbc {
    pub cartridge_type: CartridgeType,
    /// The ROM bank that answers in the switchable window; never 0 after a
    /// bank-select write.
    pub rom_bank: u16,
    /// The number of ROM banks of the cartridge, the fixed one included.
    pub max_rom_bank: u16,
    pub ram_enable: bool,
    pub ram_bank: u8,
    /// The number of external RAM banks of the cartridge.
    pub max_ram_bank: u8,
}

/// The ROM bank that a write of `data` to the bank-select area selects: the
/// low five bits, with 1 in place of 0.
pub open spec fn selected_rom_bank(data: u8) -> u16 {
    if data & 0x1F == 0 {
        1
    } else {
        (data & 0x1F) as u16
    }
}

/// The number of ROM banks, the fixed one included, that a ROM-size code of
/// the cartridge header stands for. Codes above 4 need more than five bank
/// bits.
pub open spec fn rom_banks_for(code: u8) -> u16 {
    if code == 0 {
        2
    } else if code == 1 {
        4
    } else if code == 2 {
        8
    } else if code == 3 {
        16
    } else {
        32
    }
}

/// The number of external RAM banks that a RAM-size code of the cartridge
/// header stands for.
pub open spec fn ram_banks_for(code: u8) -> u8 {
    if code == 0 || code == 1 {
        0
    } else if code == 2 {
        1
    } else if code == 3 {
        4
    } else if code == 4 {
        16
    } else {
        8
    }
}

/// The kind of cartridge that a type code of the header names; a code other
/// than 0 and 1 leaves the kind as it was.
pub open spec fn cartridge_type_for(code: u8, current: CartridgeType) -> CartridgeType {
    if code == 0 {
        CartridgeType::Rom
    } else if code == 1 {
        CartridgeType::Mbc1
    } else {
        current
    }
}

/// The byte of a cartridge image that stands at `offset` in ROM bank `bank`;
/// zero past the end of the image.
pub open spec fn cartridge_byte(contents: Seq<u8>, bank: int, offset: int) -> u8 {
    if 0x4000 * bank + offset < contents.len() {
        contents[0x4000 * bank + offset]
    } else {
        0
    }
}

impl Mbc {
    /// The controller at power-on: no cartridge banks beyond the two of a
    /// plain ROM, bank 1 selected, external RAM absent and disabled.
    pub open spec fn power_on() -> Mbc {
        Mbc {
            cartridge_type: CartridgeType::Rom,
            rom_bank: 1,
            max_rom_bank: 2,
            ram_enable: false,
            ram_bank: 0,
            max_ram_bank: 0,
        }
    }

    /// Whether the external RAM window is backed by a bank right now: RAM
    /// is enabled and the selected bank exists.
    pub open spec fn ram_present(self) -> bool {
        self.ram_enable && self.ram_bank < self.max_ram_bank && self.ram_bank < 16
    }

    /// The controller after `data` was written to `address` in the ROM
    /// area. The low 8 KiB enable external RAM when the low nibble of `data`
    /// is 0xA and disable it otherwise; the next 8 KiB select the ROM bank;
    /// the third 8 KiB select the RAM bank where the cartridge has four
    /// banks or more; the last 8 KiB, the banking-mode select, are ignored.
    pub open spec fn written(self, address: u16, data: u8) -> Mbc {
        if address <= 0x1FFF {
            Mbc { ram_enable: data & 0x0F == 0x0A, ..self }
        } else if address <= 0x3FFF {
            Mbc { rom_bank: selected_rom_bank(data), ..self }
        } else if address <= 0x5FFF && self.max_ram_bank >= 4 {
            Mbc { ram_bank: data, ..self }
        } else {
            self
        }
    }

    /// The controller after the header codes of a cartridge were taken.
    pub open spec fn configured(self, type_code: u8, rom_code: u8, ram_code: u8) -> Mbc {
        Mbc {
            cartridge_type: cartridge_type_for(type_code, self.cartridge_type),
            max_rom_bank: rom_banks_for(rom_code),
            max_ram_bank: ram_banks_for(ram_code),
            ..self
        }
    }

    /// The bank controller as it is at power-on.
    pub fn new() -> (r: Mbc)
        ensures
            r == Mbc::power_on(),
    {
        Mbc {
            cartridge_type: CartridgeType::Rom,
            rom_bank: 1,
            max_rom_bank: 2,
            ram_enable: false,
            ram_bank: 0,
            max_ram_bank: 0,
        }
    }

    /// Takes the cartridge type, ROM size and RAM size codes of a header.
    pub fn configure(&mut self, type_code: u8, rom_code: u8, ram_code: u8)
        ensures
            *final(self) == old(self).configured(type_code, rom_code, ram_code),
    {
        if type_code == 0x00 {
            self.cartridge_type = CartridgeType::Rom;
        } else if type_code == 0x01 {
            self.cartridge_type = CartridgeType::Mbc1;
        }
        self.max_rom_bank = if rom_code == 0 {
            2
        } else if rom_code == 1 {
            4
        } else if rom_code == 2 {
            8
        } else if rom_code == 3 {
            16
        } else {
            32
        };
        self.max_ram_bank = if ram_code == 0 || ram_code == 1 {
            0
        } else if ram_code == 2 {
            1
        } else if ram_code == 3 {
            4
        } else if ram_code == 4 {
            16
        } else {
            8
        };
    }

    /// Takes a write to an address of the ROM area.
    pub fn write(&mut self, address: u16, data: u8)
        requires
            address <= 0x7FFF,
        ensures
            *final(self) == old(self).written(address, data),
    {
        if address <= 0x1FFF {
            self.ram_enable = data & 0x0F == 0x0A;
        } else if address <= 0x3FFF {
            let bank: u16 = (data & 0x1F) as u16;
            self.rom_bank = if bank == 0 {
                1
            } else {
                bank
            };
        } else if address <= 0x5FFF {
            if self.max_ram_bank >= 4 {
                self.ram_bank = data;
            }
        }
    }
}

} // verus!
