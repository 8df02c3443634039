use vstd::prelude::*;
use crate::cpu::{Cpu, CpuBus};
use crate::instructions::{ConditionalFlag, DoubleRegister, Instruction, Register};
use crate::util::{get_lower_bits, get_upper_bits};

verus! {

/// The register that a 3-bit field of an opcode selects: B, C, D, E, H, L
/// and A for 7. The field value 6 stands for the byte at (HL), which has
/// instructions of its own; A fills its place here.
pub open spec fn slot(index: int) -> Register {
    if index % 8 == 0 {
        Register::B
    } else if index % 8 == 1 {
        Register::C
    } else if index % 8 == 2 {
        Register::D
    } else if index % 8 == 3 {
        Register::E
    } else if index % 8 == 4 {
        Register::H
    } else if index % 8 == 5 {
        Register::L
    } else {
        Register::A
    }
}

/// The register pair that a 2-bit field selects in loads and arithmetic:
/// BC, DE, HL, SP.
pub open spec fn pair_slot(index: int) -> DoubleRegister {
    if index % 4 == 0 {
        DoubleRegister::BC
    } else if index % 4 == 1 {
        DoubleRegister::DE
    } else if index % 4 == 2 {
        DoubleRegister::HL
    } else {
        DoubleRegister::SP
    }
}

/// The register pair that a 2-bit field selects in push and pop: BC, DE,
/// HL, AF.
pub open spec fn stack_slot(index: int) -> DoubleRegister {
    if index % 4 == 3 {
        DoubleRegister::AF
    } else {
        pair_slot(index)
    }
}

/// The condition that a 2-bit field selects: NZ, Z, NC, C.
pub open spec fn condition_slot(index: int) -> ConditionalFlag {
    if index % 4 == 0 {
        ConditionalFlag::NZ
    } else if index % 4 == 1 {
        ConditionalFlag::Z
    } else if index % 4 == 2 {
        ConditionalFlag::NC
    } else {
        ConditionalFlag::C
    }
}

/// The arithmetic instruction number `operation` (ADD, ADC, SUB, SBC, AND,
/// XOR, OR, CP) on the operand that `operand` selects: a register, or the
/// byte at (HL) for 6.
pub open spec fn arithmetic(operation: int, operand: int) -> Instruction {
    let register = slot(operand);
    if operand % 8 == 6 {
        if operation == 0 {
            Instruction::AddAHL
        } else if operation == 1 {
            Instruction::AddCarryAHL
        } else if operation == 2 {
            Instruction::SubtractAHL
        } else if operation == 3 {
            Instruction::SubtractAHLCarry
        } else if operation == 4 {
            Instruction::AndAHL
        } else if operation == 5 {
            Instruction::XorAHL
        } else if operation == 6 {
            Instruction::OrAHL
        } else {
            Instruction::CompareAHL
        }
    } else if operation == 0 {
        Instruction::AddAReg { register }
    } else if operation == 1 {
        Instruction::AddCarryAReg { register }
    } else if operation == 2 {
        Instruction::SubtractAReg { register }
    } else if operation == 3 {
        Instruction::SubtractARegCarry { register }
    } else if operation == 4 {
        Instruction::AndAReg { register }
    } else if operation == 5 {
        Instruction::XorAReg { register }
    } else if operation == 6 {
        Instruction::OrAReg { register }
    } else {
        Instruction::CompareAReg { register }
    }
}

/// The arithmetic instruction number `operation` on an immediate byte.
pub open spec fn arithmetic_immediate(operation: int) -> Instruction {
    if operation == 0 {
        Instruction::AddA
    } else if operation == 1 {
        Instruction::AddCarryA
    } else if operation == 2 {
        Instruction::SubtractA
    } else if operation == 3 {
        Instruction::SubtractACarry
    } else if operation == 4 {
        Instruction::AndA
    } else if operation == 5 {
        Instruction::XorA
    } else if operation == 6 {
        Instruction::OrA
    } else {
        Instruction::CompareA
    }
}

/// The instructions of the first quarter of the opcode table, by the two
/// 3-bit fields of the opcode.
pub open spec fn decode_first_quarter(y: int, z: int) -> Instruction {
    if z == 0 {
        if y == 0 {
            Instruction::Nop
        } else if y == 1 {
            Instruction::LoadAddressSP
        } else if y == 2 {
            Instruction::Stop
        } else if y == 3 {
            Instruction::JumpRelative
        } else {
            Instruction::JumpRelativeConditional { flag: condition_slot(y - 4) }
        }
    } else if z == 1 {
        if y % 2 == 0 {
            Instruction::LoadReg16 { register: pair_slot(y / 2) }
        } else {
            Instruction::AddHLReg { register: pair_slot(y / 2) }
        }
    } else if z == 2 {
        if y == 0 {
            Instruction::LoadBCA
        } else if y == 1 {
            Instruction::LoadABC
        } else if y == 2 {
            Instruction::LoadDEA
        } else if y == 3 {
            Instruction::LoadADE
        } else if y == 4 {
            Instruction::LoadIncrementHLA
        } else if y == 5 {
            Instruction::LoadIncrementAHL
        } else if y == 6 {
            Instruction::LoadDecrementHLA
        } else {
            Instruction::LoadDecrementAHL
        }
    } else if z == 3 {
        if y % 2 == 0 {
            Instruction::IncrementReg16 { register: pair_slot(y / 2) }
        } else {
            Instruction::DecrementReg16 { register: pair_slot(y / 2) }
        }
    } else if z == 4 {
        if y == 6 {
            Instruction::IncrementHL
        } else {
            Instruction::IncrementReg { register: slot(y) }
        }
    } else if z == 5 {
        if y == 6 {
            Instruction::DecrementHL
        } else {
            Instruction::DecrementReg { register: slot(y) }
        }
    } else if z == 6 {
        if y == 6 {
            Instruction::LoadHL8
        } else {
            Instruction::LoadReg8 { register: slot(y) }
        }
    } else if y == 0 {
        Instruction::RotateALeft
    } else if y == 1 {
        Instruction::RotateARight
    } else if y == 2 {
        Instruction::RotateALeftThroughCarry
    } else if y == 3 {
        Instruction::RotateARightThroughCarry
    } else if y == 4 {
        Instruction::DecimalAdjustA
    } else if y == 5 {
        Instruction::Complement
    } else if y == 6 {
        Instruction::SetCarryFlag
    } else {
        Instruction::FlipCarryFlag
    }
}

/// The instructions of the second quarter: the register-to-register loads,
/// with HALT where (HL) would be loaded from itself.
pub open spec fn decode_second_quarter(y: int, z: int) -> Instruction {
    if y == 6 && z == 6 {
        Instruction::Halt
    } else if z == 6 {
        Instruction::LoadRegHL { register: slot(y) }
    } else if y == 6 {
        Instruction::LoadHLReg { register: slot(z) }
    } else {
        Instruction::LoadReg { dst: slot(y), src: slot(z) }
    }
}

/// The instructions of the last quarter, the prefix opcode left aside.
/// Eleven opcodes of this quarter have no instruction.
pub open spec fn decode_last_quarter(y: int, z: int) -> Instruction {
    if z == 0 {
        if y < 4 {
            Instruction::ReturnConditional { flag: condition_slot(y) }
        } else if y == 4 {
            Instruction::LoadOffsetA
        } else if y == 5 {
            Instruction::AddSPOffset
        } else if y == 6 {
            Instruction::LoadAOffset
        } else {
            Instruction::LoadHLSPOffset
        }
    } else if z == 1 {
        if y % 2 == 0 {
            Instruction::PopReg { register: stack_slot(y / 2) }
        } else if y == 1 {
            Instruction::Return
        } else if y == 3 {
            Instruction::ReturnAndEnableInterrupts
        } else if y == 5 {
            Instruction::JumpHL
        } else {
            Instruction::LoadSPHL
        }
    } else if z == 2 {
        if y < 4 {
            Instruction::JumpConditional { flag: condition_slot(y) }
        } else if y == 4 {
            Instruction::LoadOffsetCA
        } else if y == 5 {
            Instruction::LoadAddressA
        } else if y == 6 {
            Instruction::LoadAOffsetC
        } else {
            Instruction::LoadAAddress
        }
    } else if z == 3 {
        if y == 0 {
            Instruction::Jump
        } else if y == 6 {
            Instruction::DisableInterrupts
        } else if y == 7 {
            Instruction::EnableInterrupts
        } else {
            Instruction::Invalid
        }
    } else if z == 4 {
        if y < 4 {
            Instruction::CallConditional { flag: condition_slot(y) }
        } else {
            Instruction::Invalid
        }
    } else if z == 5 {
        if y % 2 == 0 {
            Instruction::PushReg { register: stack_slot(y / 2) }
        } else if y == 1 {
            Instruction::Call
        } else {
            Instruction::Invalid
        }
    } else if z == 6 {
        arithmetic_immediate(y)
    } else if y % 2 == 0 {
        Instruction::Reset0 { location: (0xC + y / 2) as u8 }
    } else {
        Instruction::Reset8 { location: (0xC + y / 2) as u8 }
    }
}

/// The instruction that an opcode other than the prefix stands for. Bits 7
/// and 6 of the opcode pick the quarter of the table, bits 5 to 3 and bits 2
/// to 0 are the two fields `y` and `z`.
pub open spec fn decode_plain(opcode: u8) -> Instruction {
    let y = ((opcode / 8) % 8) as int;
    let z = (opcode % 8) as int;
    if opcode / 64 == 0 {
        decode_first_quarter(y, z)
    } else if opcode / 64 == 1 {
        decode_second_quarter(y, z)
    } else if opcode / 64 == 2 {
        arithmetic(y, z)
    } else {
        decode_last_quarter(y, z)
    }
}

/// The rotate, shift or swap number `operation` of the extended table (RLC,
/// RRC, RL, RR, SLA, SRA, SWAP, SRL) on the operand that `operand` selects.
pub open spec fn rotation(operation: int, operand: int) -> Instruction {
    let register = slot(operand);
    if operand % 8 == 6 {
        if operation == 0 {
            Instruction::RotateHLLeft
        } else if operation == 1 {
            Instruction::RotateHLRight
        } else if operation == 2 {
            Instruction::RotateHLLeftThroughCarry
        } else if operation == 3 {
            Instruction::RotateHLRightThroughCarry
        } else if operation == 4 {
            Instruction::ShiftHLLeftArithmetic
        } else if operation == 5 {
            Instruction::ShiftHLRightArithmetic
        } else if operation == 6 {
            Instruction::SwapHL
        } else {
            Instruction::ShiftHLRightLogical
        }
    } else if operation == 0 {
        Instruction::RotateLeft { register }
    } else if operation == 1 {
        Instruction::RotateRight { register }
    } else if operation == 2 {
        Instruction::RotateLeftThroughCarry { register }
    } else if operation == 3 {
        Instruction::RotateRightThroughCarry { register }
    } else if operation == 4 {
        Instruction::ShiftLeftArithmetic { register }
    } else if operation == 5 {
        Instruction::ShiftRightArithmetic { register }
    } else if operation == 6 {
        Instruction::Swap { register }
    } else {
        Instruction::ShiftRightLogical { register }
    }
}

/// The instruction that the byte after the prefix stands for. Every byte
/// has one: the first quarter rotates and shifts, the second tests bit `y`,
/// the third resets it, the last sets it.
pub open spec fn decode_prefixed(opcode: u8) -> Instruction {
    let y = ((opcode / 8) % 8) as int;
    let z = (opcode % 8) as int;
    let bit = y as u8;
    let register = slot(z);
    if opcode / 64 == 0 {
        rotation(y, z)
    } else if opcode / 64 == 1 {
        if z == 6 {
            Instruction::TestHLBit { bit }
        } else {
            Instruction::TestBit { bit, register }
        }
    } else if opcode / 64 == 2 {
        if z == 6 {
            Instruction::ResetHLBit { bit }
        } else {
            Instruction::ResetBit { bit, register }
        }
    } else if z == 6 {
        Instruction::SetHLBit { bit }
    } else {
        Instruction::SetBit { bit, register }
    }
}

/// The instruction that stands at an address where the bus holds `opcode`,
/// followed by `next`.
pub open spec fn decode(opcode: u8, next: u8) -> Instruction {
    if opcode == 0xCB {
        decode_prefixed(next)
    } else {
        decode_plain(opcode)
    }
}

/// Selects one of the eight register slots by a 3-bit field.
pub fn register_slot(index: u8) -> (r: Register)
    ensures
        r == slot(index as int),
{
    let field: u8 = index % 8;
    if field == 0 {
        Register::B
    } else if field == 1 {
        Register::C
    } else if field == 2 {
        Register::D
    } else if field == 3 {
        Register::E
    } else if field == 4 {
        Register::H
    } else if field == 5 {
        Register::L
    } else {
        Register::A
    }
}

fn double_register_slot(index: u8) -> (r: DoubleRegister)
    ensures
        r == pair_slot(index as int),
{
    let field: u8 = index % 4;
    if field == 0 {
        DoubleRegister::BC
    } else if field == 1 {
        DoubleRegister::DE
    } else if field == 2 {
        DoubleRegister::HL
    } else {
        DoubleRegister::SP
    }
}

fn stack_register_slot(index: u8) -> (r: DoubleRegister)
    ensures
        r == stack_slot(index as int),
{
    if index % 4 == 3 {
        DoubleRegister::AF
    } else {
        double_register_slot(index)
    }
}

/// Rows 0x0 to 0x3 of the opcode table.
fn decode_rows_0_to_3(row: u8, column: u8) -> (r: Instruction)
    requires
        row < 4,
        column < 16,
    ensures
        r == decode_plain((row * 16 + column) as u8),
{
    match column {
        0x0 => match row {
            0 => Instruction::Nop,
            1 => Instruction::Stop,
            2 => Instruction::JumpRelativeConditional { flag: ConditionalFlag::NZ },
            _ => Instruction::JumpRelativeConditional { flag: ConditionalFlag::NC },
        },
        0x1 => Instruction::LoadReg16 { register: double_register_slot(row) },
        0x2 => match row {
            0 => Instruction::LoadBCA,
            1 => Instruction::LoadDEA,
            2 => Instruction::LoadIncrementHLA,
            _ => Instruction::LoadDecrementHLA,
        },
        0x3 => Instruction::IncrementReg16 { register: double_register_slot(row) },
        0x4 => if row == 3 {
            Instruction::IncrementHL
        } else {
            Instruction::IncrementReg { register: register_slot(2 * row) }
        },
        0x5 => if row == 3 {
            Instruction::DecrementHL
        } else {
            Instruction::DecrementReg { register: register_slot(2 * row) }
        },
        0x6 => if row == 3 {
            Instruction::LoadHL8
        } else {
            Instruction::LoadReg8 { register: register_slot(2 * row) }
        },
        0x7 => match row {
            0 => Instruction::RotateALeft,
            1 => Instruction::RotateALeftThroughCarry,
            2 => Instruction::DecimalAdjustA,
            _ => Instruction::SetCarryFlag,
        },
        0x8 => match row {
            0 => Instruction::LoadAddressSP,
            1 => Instruction::JumpRelative,
            2 => Instruction::JumpRelativeConditional { flag: ConditionalFlag::Z },
            _ => Instruction::JumpRelativeConditional { flag: ConditionalFlag::C },
        },
        0x9 => Instruction::AddHLReg { register: double_register_slot(row) },
        0xA => match row {
            0 => Instruction::LoadABC,
            1 => Instruction::LoadADE,
            2 => Instruction::LoadIncrementAHL,
            _ => Instruction::LoadDecrementAHL,
        },
        0xB => Instruction::DecrementReg16 { register: double_register_slot(row) },
        0xC => Instruction::IncrementReg { register: register_slot(2 * row + 1) },
        0xD => Instruction::DecrementReg { register: register_slot(2 * row + 1) },
        0xE => Instruction::LoadReg8 { register: register_slot(2 * row + 1) },
        _ => match row {
            0 => Instruction::RotateARight,
            1 => Instruction::RotateARightThroughCarry,
            2 => Instruction::Complement,
            _ => Instruction::FlipCarryFlag,
        },
    }
}

/// Rows 0x4 to 0x7 of the opcode table: the 8-bit loads and HALT.
fn decode_rows_4_to_7(row: u8, column: u8) -> (r: Instruction)
    requires
        4 <= row < 8,
        column < 16,
    ensures
        r == decode_plain((row * 16 + column) as u8),
{
    let target: u8 = 2 * (row - 4) + column / 8;
    let source: u8 = column % 8;
    if target == 6 && source == 6 {
        Instruction::Halt
    } else if source == 6 {
        Instruction::LoadRegHL { register: register_slot(target) }
    } else if target == 6 {
        Instruction::LoadHLReg { register: register_slot(source) }
    } else {
        Instruction::LoadReg { dst: register_slot(target), src: register_slot(source) }
    }
}

/// Rows 0x8 to 0xB of the opcode table: arithmetic on the accumulator.
fn decode_rows_8_to_b(row: u8, column: u8) -> (r: Instruction)
    requires
        8 <= row < 12,
        column < 16,
    ensures
        r == decode_plain((row * 16 + column) as u8),
{
    let operation: u8 = 2 * (row - 8) + column / 8;
    let register = register_slot(column);
    proof {
        let opcode = (row * 16 + column) as u8;
        assert(opcode / 64 == 2);
        assert((opcode / 8) % 8 == operation);
        assert(opcode % 8 == column % 8);
        assert(decode_plain(opcode) == arithmetic(operation as int, (column % 8) as int));
        assert(slot(column as int) == slot((column % 8) as int));
    }
    if column % 8 == 6 {
        match operation {
            0 => Instruction::AddAHL,
            1 => Instruction::AddCarryAHL,
            2 => Instruction::SubtractAHL,
            3 => Instruction::SubtractAHLCarry,
            4 => Instruction::AndAHL,
            5 => Instruction::XorAHL,
            6 => Instruction::OrAHL,
            _ => Instruction::CompareAHL,
        }
    } else {
        match operation {
            0 => Instruction::AddAReg { register },
            1 => Instruction::AddCarryAReg { register },
            2 => Instruction::SubtractAReg { register },
            3 => Instruction::SubtractARegCarry { register },
            4 => Instruction::AndAReg { register },
            5 => Instruction::XorAReg { register },
            6 => Instruction::OrAReg { register },
            _ => Instruction::CompareAReg { register },
        }
    }
}

/// Rows 0xC to 0xF of the opcode table, the prefix opcode left aside.
fn decode_rows_c_to_f(row: u8, column: u8) -> (r: Instruction)
    requires
        12 <= row < 16,
        column < 16,
        !(row == 0xC && column == 0xB),
    ensures
        r == decode_plain((row * 16 + column) as u8),
{
    match column {
        0x0 => match row {
            0xC => Instruction::ReturnConditional { flag: ConditionalFlag::NZ },
            0xD => Instruction::ReturnConditional { flag: ConditionalFlag::NC },
            0xE => Instruction::LoadOffsetA,
            _ => Instruction::LoadAOffset,
        },
        0x1 => Instruction::PopReg { register: stack_register_slot(row - 0xC) },
        0x2 => match row {
            0xC => Instruction::JumpConditional { flag: ConditionalFlag::NZ },
            0xD => Instruction::JumpConditional { flag: ConditionalFlag::NC },
            0xE => Instruction::LoadOffsetCA,
            _ => Instruction::LoadAOffsetC,
        },
        0x3 => match row {
            0xC => Instruction::Jump,
            0xF => Instruction::DisableInterrupts,
            _ => Instruction::Invalid,
        },
        0x4 => match row {
            0xC => Instruction::CallConditional { flag: ConditionalFlag::NZ },
            0xD => Instruction::CallConditional { flag: ConditionalFlag::NC },
            _ => Instruction::Invalid,
        },
        0x5 => Instruction::PushReg { register: stack_register_slot(row - 0xC) },
        0x6 => match row {
            0xC => Instruction::AddA,
            0xD => Instruction::SubtractA,
            0xE => Instruction::AndA,
            _ => Instruction::OrA,
        },
        0x7 => Instruction::Reset0 { location: row },
        0x8 => match row {
            0xC => Instruction::ReturnConditional { flag: ConditionalFlag::Z },
            0xD => Instruction::ReturnConditional { flag: ConditionalFlag::C },
            0xE => Instruction::AddSPOffset,
            _ => Instruction::LoadHLSPOffset,
        },
        0x9 => match row {
            0xC => Instruction::Return,
            0xD => Instruction::ReturnAndEnableInterrupts,
            0xE => Instruction::JumpHL,
            _ => Instruction::LoadSPHL,
        },
        0xA => match row {
            0xC => Instruction::JumpConditional { flag: ConditionalFlag::Z },
            0xD => Instruction::JumpConditional { flag: ConditionalFlag::C },
            0xE => Instruction::LoadAddressA,
            _ => Instruction::LoadAAddress,
        },
        0xB => match row {
            0xF => Instruction::EnableInterrupts,
            _ => Instruction::Invalid,
        },
        0xC => match row {
            0xC => Instruction::CallConditional { flag: ConditionalFlag::Z },
            0xD => Instruction::CallConditional { flag: ConditionalFlag::C },
            _ => Instruction::Invalid,
        },
        0xD => match row {
            0xC => Instruction::Call,
            _ => Instruction::Invalid,
        },
        0xE => match row {
            0xC => Instruction::AddCarryA,
            0xD => Instruction::SubtractACarry,
            0xE => Instruction::XorA,
            _ => Instruction::CompareA,
        },
        _ => Instruction::Reset8 { location: row },
    }
}

/// Decodes an opcode other than the prefix by its row and column in the
/// opcode table.
pub fn decode_opcode(opcode: u8) -> (r: Instruction)
    requires
        opcode != 0xCB,
    ensures
        r == decode_plain(opcode),
        r.executable() || r == Instruction::Invalid,
{
    let row = get_upper_bits(opcode);
    let column = get_lower_bits(opcode);
    if row < 4 {
        decode_rows_0_to_3(row, column)
    } else if row < 8 {
        decode_rows_4_to_7(row, column)
    } else if row < 12 {
        decode_rows_8_to_b(row, column)
    } else {
        decode_rows_c_to_f(row, column)
    }
}

/// Decodes the byte that follows the prefix opcode.
pub fn decode_extended(opcode: u8) -> (r: Instruction)
    ensures
        r == decode_prefixed(opcode),
        r.executable(),
{
    let row = get_upper_bits(opcode);
    let column = get_lower_bits(opcode);
    let register = register_slot(column);
    let indirect = column % 8 == 6;
    let field: u8 = 2 * (row % 4) + column / 8;
    if row < 4 {
        if indirect {
            match field {
                0 => Instruction::RotateHLLeft,
                1 => Instruction::RotateHLRight,
                2 => Instruction::RotateHLLeftThroughCarry,
                3 => Instruction::RotateHLRightThroughCarry,
                4 => Instruction::ShiftHLLeftArithmetic,
                5 => Instruction::ShiftHLRightArithmetic,
                6 => Instruction::SwapHL,
                _ => Instruction::ShiftHLRightLogical,
            }
        } else {
            match field {
                0 => Instruction::RotateLeft { register },
                1 => Instruction::RotateRight { register },
                2 => Instruction::RotateLeftThroughCarry { register },
                3 => Instruction::RotateRightThroughCarry { register },
                4 => Instruction::ShiftLeftArithmetic { register },
                5 => Instruction::ShiftRightArithmetic { register },
                6 => Instruction::Swap { register },
                _ => Instruction::ShiftRightLogical { register },
            }
        }
    } else if row < 8 {
        if indirect {
            Instruction::TestHLBit { bit: field }
        } else {
            Instruction::TestBit { bit: field, register }
        }
    } else if row < 12 {
        if indirect {
            Instruction::ResetHLBit { bit: field }
        } else {
            Instruction::ResetBit { bit: field, register }
        }
    } else if indirect {
        Instruction::SetHLBit { bit: field }
    } else {
        Instruction::SetBit { bit: field, register }
    }
}

impl Cpu {
    /// Decodes the instruction at the program counter. The opcode is read
    /// through the bus, and after the prefix opcode the byte behind it; the
    /// register file is left as it is.
    pub fn parse(&mut self, cpu_bus: &mut impl CpuBus) -> (instruction: Instruction)
        ensures
            *final(self) == *old(self),
            instruction == decode(
                old(cpu_bus).peek(old(self).program_counter),
                old(cpu_bus).after_read(old(self).program_counter).peek(
                    old(self).program_counter.wrapping_add(1),
                ),
            ),
            *final(cpu_bus) == if old(cpu_bus).peek(old(self).program_counter) == 0xCB {
                old(cpu_bus).after_read(old(self).program_counter).after_read(
                    old(self).program_counter.wrapping_add(1),
                )
            } else {
                old(cpu_bus).after_read(old(self).program_counter)
            },
            instruction.executable() || instruction == Instruction::Invalid,
    {
        let opcode = cpu_bus.read(self.program_counter);
        if opcode == 0xCB {
            self.parse_prefix(cpu_bus)
        } else {
            decode_opcode(opcode)
        }
    }

    /// Decodes the instruction of the extended table whose second byte
    /// stands behind the program counter.
    pub fn parse_prefix(&mut self, cpu_bus: &mut impl CpuBus) -> (instruction: Instruction)
        ensures
            *final(self) == *old(self),
            instruction == decode_prefixed(
                old(cpu_bus).peek(old(self).program_counter.wrapping_add(1)),
            ),
            *final(cpu_bus) == old(cpu_bus).after_read(old(self).program_counter.wrapping_add(1)),
            instruction.executable(),
    {
        let opcode = cpu_bus.read(self.program_counter.wrapping_add(1));
        decode_extended(opcode)
    }
}

} // verus!
