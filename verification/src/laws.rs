use vstd::prelude::*;
use crate::cpu::{Cpu, CpuBus};
use crate::decode::{decode, decode_plain, decode_prefixed};
use crate::instructions::{DoubleRegister, Instruction, InstructionClass};
use crate::interrupts::{
    acknowledged, first_pending, interrupt_vector, INTERRUPT_ENABLE, INTERRUPT_REQUEST,
};
use crate::memory::Memory;

verus! {

/// The eleven opcodes that stand for no instruction.
pub open spec fn is_unused_opcode(opcode: u8) -> bool {
    opcode == 0xD3 || opcode == 0xDB || opcode == 0xDD || opcode == 0xE3 || opcode == 0xE4
        || opcode == 0xEB || opcode == 0xEC || opcode == 0xED || opcode == 0xF4 || opcode == 0xFC
        || opcode == 0xFD
}

/// Decoding yields the invalid marker for the eleven unused opcodes and for
/// no other byte; every other opcode, and every byte behind the prefix,
/// stands for an instruction that can be carried out.
pub proof fn law_invalid_opcodes(opcode: u8, next: u8)
    ensures
        decode(opcode, next) == Instruction::Invalid <==> is_unused_opcode(opcode),
        !is_unused_opcode(opcode) ==> decode(opcode, next).executable(),
        decode_prefixed(next).executable(),
{
    if opcode != 0xCB {
        let y = ((opcode / 8) % 8) as int;
        let z = (opcode % 8) as int;
        assert(opcode == (opcode / 64) * 64 + y * 8 + z);
        assert(decode_plain(opcode).executable() || decode_plain(opcode) == Instruction::Invalid);
    }
}

/// One clock tick touches the timer, the scanline counter and the I/O
/// registers, and nothing else on the bus.
pub proof fn lemma_step_keeps_the_rest(memory: Memory)
    ensures
        memory.stepped() == (Memory {
            timer: memory.stepped().timer,
            lcd: memory.stepped().lcd,
            io_registers: memory.stepped().io_registers,
            ..memory
        }),
{
}

/// The four clock ticks of one access touch the timer, the scanline counter
/// and the I/O registers, and nothing else on the bus.
pub proof fn lemma_tick_keeps_the_rest(memory: Memory)
    ensures
        memory.ticked() == (Memory {
            timer: memory.ticked().timer,
            lcd: memory.ticked().lcd,
            io_registers: memory.ticked().io_registers,
            ..memory
        }),
{
    lemma_step_keeps_the_rest(memory);
    lemma_step_keeps_the_rest(memory.stepped());
    lemma_step_keeps_the_rest(memory.stepped().stepped());
    lemma_step_keeps_the_rest(memory.stepped().stepped().stepped());
}

/// A write to the ROM bank-select area selects the bank that the low five
/// bits of the value name, and bank 1 where they name bank 0: no written
/// value selects bank 0.
pub proof fn law_rom_bank_select(memory: Memory, address: u16, value: u8)
    requires
        0x2000 <= address <= 0x3FFF,
    ensures
        memory.written(address, value).mbc.rom_bank == if value & 0x1F == 0 {
            1
        } else {
            (value & 0x1F) as u16
        },
        1 <= memory.written(address, value).mbc.rom_bank <= 31,
{
    lemma_tick_keeps_the_rest(memory);
    assert(value & 0x1F <= 31) by (bit_vector);
}

/// While the boot overlay is active a read of address 0 yields the first
/// byte of the boot ROM. After a write of any value to the boot-disable
/// register the same read yields the first byte of the cartridge.
pub proof fn law_boot_overlay(memory: Memory, value: u8)
    ensures
        memory.use_boot_rom ==> memory.value_at(0) == memory.boot_rom[0],
        !memory.use_boot_rom ==> memory.value_at(0) == memory.rom[0],
        !memory.written(0xFF50, value).use_boot_rom,
        memory.written(0xFF50, value).value_at(0) == memory.rom[0],
{
    lemma_tick_keeps_the_rest(memory);
    lemma_tick_keeps_the_rest(memory.written(0xFF50, value));
}

/// A DMA transfer leaves the boot overlay as it was.
pub proof fn lemma_dma_keeps_the_overlay(memory: Memory, base: u16, done: int)
    ensures
        memory.dma_from(base, done).use_boot_rom == memory.use_boot_rom,
    decreases 160 - done,
{
    if 0 <= done < 160 {
        let data = memory.value_at((base + done) as u16);
        lemma_tick_keeps_the_rest(memory);
        lemma_dma_keeps_the_overlay(memory.ticked().with_sprite_byte(done, data), base, done + 1);
    }
}

/// A DMA transfer out of work RAM that has `done` bytes behind it leaves
/// work RAM as it is, leaves the first `done` slots of the sprite attribute
/// table as they are, and puts into every later slot the byte that work RAM
/// holds for it.
pub proof fn lemma_dma_out_of_work_ram(memory: Memory, base: u16, done: int, slot: int)
    requires
        0xC000 <= base,
        base + 159 <= 0xDFFF,
        0 <= done <= 160,
        0 <= slot < 160,
    ensures
        memory.dma_from(base, done).wram == memory.wram,
        memory.dma_from(base, done).sprite_attribute_table[slot] == if slot < done {
            memory.sprite_attribute_table[slot]
        } else {
            memory.wram[base - 0xC000 + slot]
        },
    decreases 160 - done,
{
    if done < 160 {
        let data = memory.value_at((base + done) as u16);
        lemma_tick_keeps_the_rest(memory);
        lemma_dma_out_of_work_ram(
            memory.ticked().with_sprite_byte(done, data),
            base,
            done + 1,
            slot,
        );
    }
}

/// A write of `value` to the DMA register copies the 160 bytes that start at
/// `value * 0x100` into the sprite attribute table; here for a source in
/// work RAM, which the transfer leaves as it is.
pub proof fn law_dma_copies_work_ram(memory: Memory, value: u8, slot: int)
    requires
        0xC0 <= value <= 0xDF,
        0 <= slot < 160,
    ensures
        memory.written(0xFF46, value).sprite_attribute_table[slot] == memory.wram[value * 0x100
            - 0xC000 + slot],
        memory.written(0xFF46, value).wram == memory.wram,
{
    lemma_tick_keeps_the_rest(memory);
    lemma_dma_out_of_work_ram(memory.ticked(), (value * 0x100) as u16, 0, slot);
}

/// The boot overlay is switched off for good: once it is off, no read and
/// no write switches it on again.
pub proof fn law_boot_overlay_stays_off(memory: Memory, address: u16, value: u8)
    requires
        !memory.use_boot_rom,
    ensures
        !memory.ticked().use_boot_rom,
        !memory.written(address, value).use_boot_rom,
{
    lemma_tick_keeps_the_rest(memory);
    if address == 0xFF46 {
        lemma_dma_keeps_the_overlay(memory.ticked(), (value * 0x100) as u16, 0);
    }
}

/// The no-op instruction moves the program counter on by exactly 1 and
/// changes nothing else in the register file. With the master enable flag
/// clear the bus is not touched either; with it set and no interrupt
/// pending, the bus sees the two reads of the interrupt step and nothing
/// more. (With an interrupt pending and the flag set, the step goes on into
/// the handler.)
pub proof fn law_nop_only_advances<B: CpuBus>(cpu: Cpu, bus: B)
    requires
        !cpu.halt,
    ensures
        cpu.advanced(1).program_counter == if cpu.program_counter == 0xFFFF {
            0
        } else {
            (cpu.program_counter + 1) as u16
        },
        !cpu.interrupts_enabled ==> cpu.on(bus).executed(Instruction::Nop) == cpu.advanced(1).on(
            bus,
        ),
        cpu.interrupts_enabled && cpu.on(bus).pending() == 0 ==> cpu.on(bus).executed(
            Instruction::Nop,
        ) == cpu.advanced(1).on(bus.after_read(INTERRUPT_REQUEST).after_read(INTERRUPT_ENABLE)),
{
}

/// Clearing the request bit of one interrupt clears that bit and leaves the
/// other bits of the request byte as they were.
pub proof fn law_acknowledge_clears_one_bit(requested: u8, number: int)
    requires
        0 <= number < 5,
    ensures
        acknowledged(requested, number) & (1u8 << (number as u8)) == 0,
        acknowledged(requested, number) | (1u8 << (number as u8)) == requested | (1u8 << (
            number as u8
        )),
{
    assert(requested & 0xFE & (1u8 << 0u8) == 0 && (requested & 0xFE) | (1u8 << 0u8) == requested
        | (1u8 << 0u8) && requested & 0xFD & (1u8 << 1u8) == 0 && (requested & 0xFD) | (1u8 << 1u8)
        == requested | (1u8 << 1u8) && requested & 0xFB & (1u8 << 2u8) == 0 && (requested & 0xFB)
        | (1u8 << 2u8) == requested | (1u8 << 2u8) && requested & 0xF7 & (1u8 << 3u8) == 0 && (
    requested & 0xF7) | (1u8 << 3u8) == requested | (1u8 << 3u8) && requested & 0xEF & (1u8
        << 4u8) == 0 && (requested & 0xEF) | (1u8 << 4u8) == requested | (1u8 << 4u8))
        by (bit_vector);
}

/// The interrupt that is served first is pending, and no pending interrupt
/// has a lower number.
pub proof fn law_first_pending_has_priority(pending: u8)
    requires
        pending & 0x1F != 0,
    ensures
        0 <= first_pending(pending) < 5,
        pending & (1u8 << (first_pending(pending) as u8)) != 0,
        forall|lower: u8|
            lower < first_pending(pending) ==> pending & (1u8 << lower) == 0,
{
    assert(pending & 0x1F != 0 ==> (pending & 0b0000_0001 != 0 || pending & 0b0000_0010 != 0
        || pending & 0b0000_0100 != 0 || pending & 0b0000_1000 != 0 || pending & 0b0001_0000
        != 0)) by (bit_vector);
    assert(1u8 << 0u8 == 1 && 1u8 << 1u8 == 2 && 1u8 << 2u8 == 4 && 1u8 << 3u8 == 8 && 1u8 << 4u8
        == 16) by (bit_vector);
}

/// One dispatch step. Where an interrupt is pending after an instruction
/// that leaves the master enable flag set, the step clears the flag, clears
/// in the request register the bit of the pending interrupt of the highest
/// priority and no other, pushes the program counter and goes to the vector
/// of that interrupt: 0x40 for the vertical blank, 0x48 for the LCD status,
/// and so on.
pub proof fn law_dispatch<B: CpuBus>(cpu: Cpu, bus: B, instruction: Instruction)
    requires
        cpu.interrupts_enabled,
        instruction != Instruction::EnableInterrupts,
        !cpu.halt,
        cpu.on(bus).pending() != 0,
    ensures
        ({
            let before = cpu.on(bus);
            let number = first_pending(before.pending());
            let after = before.interrupts_checked(instruction);
            &&& after.cpu == Cpu {
                interrupts_enabled: false,
                stack_pointer: cpu.stack_pointer.wrapping_sub(2),
                program_counter: interrupt_vector(number),
                ..cpu
            }
            &&& after.bus == bus.after_read(INTERRUPT_REQUEST).after_read(
                INTERRUPT_ENABLE,
            ).after_write(
                INTERRUPT_REQUEST,
                acknowledged(before.requested(), number),
            ).after_write(
                cpu.stack_pointer.wrapping_sub(2),
                (cpu.program_counter % 256) as u8,
            ).after_write(
                cpu.stack_pointer.wrapping_sub(2).wrapping_add(1),
                (cpu.program_counter / 256) as u8,
            )
            &&& before.pending() & 0b0000_0001 != 0 ==> after.cpu.program_counter == 0x40
            &&& before.pending() & 0b0000_0011 == 0b0000_0010 ==> after.cpu.program_counter
                == 0x48
        }),
{
    let pending = cpu.on(bus).pending();
    assert(pending & 0b0000_0011 == 0b0000_0010 ==> pending & 0b0000_0001 == 0 && pending
        & 0b0000_0010 != 0) by (bit_vector);
}

/// Packing the flags and unpacking them again gives the flags back.
pub proof fn law_flags_survive_packing(cpu: Cpu)
    ensures
        cpu.with_flags_byte(cpu.flags_byte()) == cpu,
        cpu.flags_byte() % 16 == 0,
{
    let byte = cpu.flags_byte();
    assert((byte & 0b1000_0000 != 0 <==> byte >= 128) && (byte & 0b0100_0000 != 0 <==> byte % 128
        >= 64) && (byte & 0b0010_0000 != 0 <==> byte % 64 >= 32) && (byte & 0b0001_0000 != 0 <==> byte
        % 32 >= 16)) by (bit_vector);
}

/// Unpacking a byte into the flags and packing them again keeps the upper
/// nibble of the byte and clears the lower: the low nibble of the flag byte
/// is always zero.
pub proof fn law_flag_byte_keeps_the_upper_nibble(cpu: Cpu, byte: u8)
    ensures
        cpu.with_flags_byte(byte).flags_byte() == byte & 0xF0,
{
    assert((if byte & 0b1000_0000 != 0 {
        0x80int
    } else {
        0int
    }) + (if byte & 0b0100_0000 != 0 {
        0x40int
    } else {
        0int
    }) + (if byte & 0b0010_0000 != 0 {
        0x20int
    } else {
        0int
    }) + (if byte & 0b0001_0000 != 0 {
        0x10int
    } else {
        0int
    }) == byte & 0xF0) by (bit_vector);
}

/// Whether the two bytes below `pointer`, where a push puts a word, lie in
/// work RAM or in high RAM.
pub open spec fn stack_in_ram(pointer: u16) -> bool {
    0xC002 <= pointer <= 0xE000 || 0xFF82 <= pointer <= 0xFFFF
}

/// Work RAM and high RAM hold what was written to them: a read of an
/// address there yields the byte that the last write to it left, whatever
/// was written to another address in between.
pub proof fn law_ram_holds_what_was_written(
    memory: Memory,
    address: u16,
    value: u8,
    other: u16,
    second: u8,
)
    requires
        0xC000 <= address <= 0xDFFF || 0xFF80 <= address <= 0xFFFE,
        0xC000 <= other <= 0xDFFF || 0xFF80 <= other <= 0xFFFE,
        other != address,
    ensures
        memory.written(address, value).value_at(address) == value,
        memory.written(address, value).written(other, second).value_at(address) == value,
        memory.written(address, value).written(other, second).ticked().value_at(other) == second,
{
    let first = memory.written(address, value);
    let both = first.written(other, second);
    lemma_tick_keeps_the_rest(memory);
    lemma_tick_keeps_the_rest(first);
    lemma_tick_keeps_the_rest(both);
    lemma_tick_keeps_the_rest(both.ticked());
}

/// On any bus that yields at the two stack addresses what a push has just
/// written there, and with no interrupt dispatch in between, a push of a
/// register pair followed by a pop of the same pair restores the pair and
/// the stack pointer; the register file is as before but for the program
/// counter, which has passed the two instructions.
pub proof fn law_push_pop_restores_on<B: CpuBus>(cpu: Cpu, bus: B, register: DoubleRegister)
    requires
        register != DoubleRegister::SP,
        !cpu.interrupts_enabled,
        !cpu.halt,
        cpu.on(bus).pushed(cpu.pair(register)).top_of_stack() == cpu.pair(register),
    ensures
        ({
            let pushed = cpu.on(bus).executed(Instruction::PushReg { register });
            let popped = pushed.executed(Instruction::PopReg { register });
            &&& popped.cpu.pair(register) == cpu.pair(register)
            &&& popped.cpu.stack_pointer == cpu.stack_pointer
            &&& popped.cpu == cpu.advanced(1).advanced(1)
        }),
{
    law_flags_survive_packing(cpu);
    let pointer = cpu.stack_pointer.wrapping_sub(2);
    assert(pointer.wrapping_add(2) == cpu.stack_pointer);
    let pushed = cpu.on(bus).executed(Instruction::PushReg { register });
    assert(pushed == cpu.on(bus).pushed(cpu.pair(register)).advanced(1));
    assert(pushed.top_of_stack() == cpu.pair(register));
}

/// With the stack in work RAM or high RAM, the bus yields at the two stack
/// addresses what a push has just written there.
pub proof fn law_stack_in_ram_is_kept(cpu: Cpu, memory: Memory, value: u16)
    requires
        stack_in_ram(cpu.stack_pointer),
    ensures
        cpu.on(memory).pushed(value).top_of_stack() == value,
{
    let pointer = (cpu.stack_pointer - 2) as u16;
    let low = (value % 256) as u8;
    let high = (value / 256) as u8;
    assert(cpu.stack_pointer.wrapping_sub(2) == pointer);
    assert(pointer.wrapping_add(1) == pointer + 1);
    law_ram_holds_what_was_written(memory, pointer, low, (pointer + 1) as u16, high);
}

/// With the stack in work RAM or high RAM and no interrupt dispatch in
/// between, a push of a register pair followed by a pop of the same pair
/// restores the pair and the stack pointer.
pub proof fn law_push_pop_restores(cpu: Cpu, memory: Memory, register: DoubleRegister)
    requires
        register != DoubleRegister::SP,
        !cpu.interrupts_enabled,
        !cpu.halt,
        stack_in_ram(cpu.stack_pointer),
    ensures
        ({
            let pushed = cpu.on(memory).executed(Instruction::PushReg { register });
            let popped = pushed.executed(Instruction::PopReg { register });
            &&& popped.cpu.pair(register) == cpu.pair(register)
            &&& popped.cpu.stack_pointer == cpu.stack_pointer
            &&& popped.cpu == cpu.advanced(1).advanced(1)
        }),
{
    law_stack_in_ram_is_kept(cpu, memory, cpu.pair(register));
    law_push_pop_restores_on(cpu, memory, register);
}

proof fn lemma_length_load8<B: CpuBus>(cpu: Cpu, bus: B, instruction: Instruction)
    requires
        instruction.class() == InstructionClass::Load8,
    ensures
        1 <= instruction.length() <= 3,
        cpu.on(bus).run(instruction).cpu.program_counter == cpu.program_counter.wrapping_add(
            instruction.length(),
        ),
{
}

proof fn lemma_length_load16<B: CpuBus>(cpu: Cpu, bus: B, instruction: Instruction)
    requires
        instruction.class() == InstructionClass::Load16,
    ensures
        1 <= instruction.length() <= 3,
        cpu.on(bus).run(instruction).cpu.program_counter == cpu.program_counter.wrapping_add(
            instruction.length(),
        ),
{
}

proof fn lemma_length_arithmetic8<B: CpuBus>(cpu: Cpu, bus: B, instruction: Instruction)
    requires
        instruction.class() == InstructionClass::Arithmetic8,
    ensures
        1 <= instruction.length() <= 3,
        cpu.on(bus).run(instruction).cpu.program_counter == cpu.program_counter.wrapping_add(
            instruction.length(),
        ),
{
}

proof fn lemma_length_adjust8<B: CpuBus>(cpu: Cpu, bus: B, instruction: Instruction)
    requires
        instruction.class() == InstructionClass::Adjust8,
    ensures
        1 <= instruction.length() <= 3,
        cpu.on(bus).run(instruction).cpu.program_counter == cpu.program_counter.wrapping_add(
            instruction.length(),
        ),
{
}

proof fn lemma_length_arithmetic16<B: CpuBus>(cpu: Cpu, bus: B, instruction: Instruction)
    requires
        instruction.class() == InstructionClass::Arithmetic16,
    ensures
        1 <= instruction.length() <= 3,
        cpu.on(bus).run(instruction).cpu.program_counter == cpu.program_counter.wrapping_add(
            instruction.length(),
        ),
{
}

proof fn lemma_length_rotate<B: CpuBus>(cpu: Cpu, bus: B, instruction: Instruction)
    requires
        instruction.class() == InstructionClass::Rotate,
    ensures
        1 <= instruction.length() <= 3,
        cpu.on(bus).run(instruction).cpu.program_counter == cpu.program_counter.wrapping_add(
            instruction.length(),
        ),
{
}

proof fn lemma_length_bit<B: CpuBus>(cpu: Cpu, bus: B, instruction: Instruction)
    requires
        instruction.class() == InstructionClass::Bit,
    ensures
        1 <= instruction.length() <= 3,
        cpu.on(bus).run(instruction).cpu.program_counter == cpu.program_counter.wrapping_add(
            instruction.length(),
        ),
{
}

proof fn lemma_length_control<B: CpuBus>(cpu: Cpu, bus: B, instruction: Instruction)
    requires
        instruction.class() == InstructionClass::Control,
        instruction != Instruction::Halt,
        instruction != Instruction::Stop,
    ensures
        1 <= instruction.length() <= 3,
        cpu.on(bus).run(instruction).cpu.program_counter == cpu.program_counter.wrapping_add(
            instruction.length(),
        ),
{
}

/// An instruction that is no jump, call, return or restart, and that does
/// not halt the processor, moves the program counter on by its length, which
/// is between 1 and 3.
pub proof fn law_body_advances_by_length<B: CpuBus>(cpu: Cpu, bus: B, instruction: Instruction)
    requires
        instruction.class() != InstructionClass::Invalid,
        instruction.class() != InstructionClass::Jump,
        instruction != Instruction::Halt,
        instruction != Instruction::Stop,
    ensures
        1 <= instruction.length() <= 3,
        cpu.on(bus).run(instruction).cpu.program_counter == cpu.program_counter.wrapping_add(
            instruction.length(),
        ),
{
    match instruction.class() {
        InstructionClass::Load8 => lemma_length_load8(cpu, bus, instruction),
        InstructionClass::Load16 => lemma_length_load16(cpu, bus, instruction),
        InstructionClass::Arithmetic8 => lemma_length_arithmetic8(cpu, bus, instruction),
        InstructionClass::Adjust8 => lemma_length_adjust8(cpu, bus, instruction),
        InstructionClass::Arithmetic16 => lemma_length_arithmetic16(cpu, bus, instruction),
        InstructionClass::Rotate => lemma_length_rotate(cpu, bus, instruction),
        InstructionClass::Bit => lemma_length_bit(cpu, bus, instruction),
        InstructionClass::Control => lemma_length_control(cpu, bus, instruction),
        _ => {},
    }
}

/// A conditional jump or call whose condition does not hold, like every
/// instruction that does not jump, moves the program counter on by its
/// length.
pub proof fn law_untaken_jump_advances_by_length<B: CpuBus>(
    cpu: Cpu,
    bus: B,
    instruction: Instruction,
)
    requires
        ({
            ||| (instruction matches Instruction::JumpConditional { flag } && !cpu.condition(flag))
            ||| (instruction matches Instruction::JumpRelativeConditional { flag }
                && !cpu.condition(flag))
            ||| (instruction matches Instruction::CallConditional { flag } && !cpu.condition(flag))
            ||| (instruction matches Instruction::ReturnConditional { flag } && !cpu.condition(
                flag,
            ))
        }),
    ensures
        cpu.on(bus).run(instruction).cpu == cpu.advanced(instruction.length()),
{
}

/// The instruction that sets the master enable flag is never followed by a
/// dispatch at once, whatever is pending: the step ends behind it.
pub proof fn law_enable_interrupts_waits<B: CpuBus>(cpu: Cpu, bus: B)
    requires
        !cpu.halt,
    ensures
        cpu.on(bus).executed(Instruction::EnableInterrupts) == (Cpu {
            interrupts_enabled: true,
            ..cpu
        }).advanced(1).on(bus),
{
}

/// A halted processor stays where it is while nothing is pending, and wakes
/// as soon as an interrupt is pending, whatever the master enable flag says:
/// it leaves the halted state and moves on behind the instruction that
/// halted it. Without the flag no handler is called.
pub proof fn law_halt_waits_for_an_interrupt<B: CpuBus>(cpu: Cpu, bus: B)
    requires
        !cpu.interrupts_enabled,
    ensures
        ({
            let after = cpu.on(bus).executed(Instruction::Halt);
            &&& cpu.on(bus).pending() == 0 ==> after.cpu == Cpu { halt: true, ..cpu }
            &&& cpu.on(bus).pending() != 0 ==> after.cpu == Cpu { halt: false, ..cpu }.advanced(1)
            &&& after.bus == bus.after_read(INTERRUPT_REQUEST).after_read(INTERRUPT_ENABLE)
        }),
{
}

/// The timer counter counts modulo 256: the tick that takes it past 255
/// reloads it from the modulo register and raises the timer bit of the
/// interrupt request register, and no other tick raises that bit.
pub proof fn law_timer_overflow(memory: Memory)
    ensures
        memory.timer.overflows() ==> memory.stepped().timer.timer_counter
            == memory.timer.timer_modulo,
        memory.timer.overflows() ==> memory.stepped().io_registers[0x0F] & 0b0000_0100
            == 0b0000_0100,
        !memory.timer.overflows() ==> memory.stepped().io_registers[0x0F] & 0b0000_0100
            == memory.io_registers[0x0F] & 0b0000_0100,
        memory.timer.counter_moves() && !memory.timer.overflows()
            ==> memory.stepped().timer.timer_counter == memory.timer.timer_counter + 1,
        !memory.timer.counter_moves() ==> memory.stepped().timer.timer_counter
            == memory.timer.timer_counter,
{
    let requested = memory.io_registers[0x0F];
    assert((requested | 0b0000_0100) & 0b0000_0100 == 0b0000_0100 && (requested | 0b0000_0001)
        & 0b0000_0100 == requested & 0b0000_0100 && ((requested | 0b0000_0100) | 0b0000_0001)
        & 0b0000_0100 == 0b0000_0100) by (bit_vector);
}

/// The scanline counter stays within its 154 lines of 456 ticks, and the
/// tick that enters line 144 raises the vertical-blank bit of the interrupt
/// request register.
pub proof fn law_scanline_counter(memory: Memory)
    requires
        memory.lcd.in_range(),
    ensures
        memory.stepped().lcd.in_range(),
        memory.lcd.enters_vblank() ==> memory.stepped().lcd.ly == 144
            && memory.stepped().io_registers[0x0F] & 0b0000_0001 == 0b0000_0001,
        memory.stepped().lcd.frame_happened == (memory.lcd.frame_happened || (memory.lcd.time
            == 455 && memory.lcd.ly == 153)),
{
    let requested = memory.io_registers[0x0F];
    assert((requested | 0b0000_0001) & 0b0000_0001 == 0b0000_0001 && ((requested | 0b0000_0100)
        | 0b0000_0001) & 0b0000_0001 == 0b0000_0001) by (bit_vector);
}

} // verus!
