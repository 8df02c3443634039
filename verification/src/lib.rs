pub mod alu_result;
pub mod cartridge;
pub mod cpu;
pub mod decode;
pub mod execute;
pub mod harness;
pub mod instructions;
pub mod interrupts;
pub mod joypad;
pub mod laws;
pub mod lcd;
pub mod memory;
pub mod ppu;
pub mod run;
pub mod sprite_attribute;
pub mod state;
pub mod tile_info;
pub mod timer;
pub mod util;
