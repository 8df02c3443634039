use vstd::prelude::*;
use crate::alu_result::AluResult;
use crate::instructions::{ConditionalFlag, DoubleRegister, Register};
use crate::util::{combine_bytes, get_lower_byte, get_upper_byte, word};

verus! {

/// The address space as the processor sees it: sixteen address lines, eight
/// data lines. An access never fails.
///
/// The three specification functions are the model of a bus: what a read
/// yields, and the bus that a read or a write leaves behind. Everything that
/// is proved of the processor is stated over them. Their bodies here describe
/// a bus on which every read yields zero and no access changes anything; a
/// bus with contents of its own states its own.
pub trait CpuBus: Sized {
    /// The byte that a read of `address` yields.
    open spec fn peek(&self, address: u16) -> u8 {
        0
    }

    /// The bus after a read of `address`.
    open spec fn after_read(&self, address: u16) -> Self {
        *self
    }

    /// The bus after `val` was written to `address`.
    open spec fn after_write(&self, address: u16, val: u8) -> Self {
        *self
    }

    /// Reads the byte at `address`.
    fn read(&mut self, address: u16) -> (val: u8)
        ensures
            val == old(self).peek(address),
            *final(self) == old(self).after_read(address),
    ;

    /// Writes `val` to `address`.
    fn write(&mut self, address: u16, val: u8)
        ensures
            *final(self) == old(self).after_write(address, val),
    ;
}

/// The register file: seven 8-bit registers, the four flags, the stack
/// pointer and the program counter, with the halted state and the global
/// interrupt master enable flag.
#[derive(Debug)]
pub struct Cpu {
    pub b: u8,
    pub c: u8,
    pub d: u8,
    pub e: u8,
    pub h: u8,
    pub l: u8,
    pub a: u8,
    pub is_zero: bool,
    pub is_subtraction: bool,
    pub is_half_carry: bool,
    pub is_carry: bool,
    pub stack_pointer: u16,
    pub program_counter: u16,
    pub halt: bool,
    pub interrupts_enabled: bool,
    pub debug: bool,
}

/// An operation of the arithmetic unit on the accumulator.
#[derive(Debug, Clone, Copy, PartialEq, Eq, Structural)]
pub enum AluOp {
    Add,
    AddCarry,
    Subtract,
    SubtractCarry,
    And,
    Xor,
    Or,
    Compare,
}

/// An operation that reads one byte, a register or the byte at (HL), and
/// writes its result back to the same place.
#[derive(Debug, Clone, Copy, PartialEq, Eq, Structural)]
pub enum UnaryOp {
    Increment,
    Decrement,
    RotateLeft,
    RotateLeftThroughCarry,
    RotateRight,
    RotateRightThroughCarry,
    ShiftLeftArithmetic,
    Swap,
    ShiftRightArithmetic,
    ShiftRightLogical,
    SetBit { bit: u8 },
    ResetBit { bit: u8 },
}

/// `value` rotated left by one bit: bit 7 comes back in as bit 0.
pub open spec fn rotated_left(value: u8) -> u8 {
    (value << 1) | (value >> 7)
}

/// `value` shifted left by one bit, with `carry` coming in as bit 0.
pub open spec fn rotated_left_through(value: u8, carry: bool) -> u8 {
    (value << 1) | (if carry {
        1u8
    } else {
        0u8
    })
}

/// `value` rotated right by one bit: bit 0 comes back in as bit 7.
pub open spec fn rotated_right(value: u8) -> u8 {
    (value >> 1) | (value << 7)
}

/// `value` shifted right by one bit, with `carry` coming in as bit 7.
pub open spec fn rotated_right_through(value: u8, carry: bool) -> u8 {
    (value >> 1) | (if carry {
        0x80u8
    } else {
        0u8
    })
}

/// `value` with its two nibbles exchanged.
pub open spec fn swapped(value: u8) -> u8 {
    (value << 4) | (value >> 4)
}

/// `value` shifted right by one bit, bit 7 staying as it is.
pub open spec fn shifted_right_arithmetic(value: u8) -> u8 {
    (value >> 1) | (value & 0b1000_0000)
}

/// `value` with bit `position` set; unchanged for a position above 7.
pub open spec fn with_bit_set(position: u8, value: u8) -> u8 {
    if position < 8 {
        value | (1u8 << position)
    } else {
        value
    }
}

/// `value` with bit `position` clear; unchanged for a position above 7.
pub open spec fn with_bit_reset(position: u8, value: u8) -> u8 {
    if position < 8 {
        value & !(1u8 << position)
    } else {
        value
    }
}

/// A flag as its bit in the flag byte.
pub open spec fn flag_bit(flag: bool, weight: int) -> int {
    if flag {
        weight
    } else {
        0
    }
}

impl Cpu {
    /// The register file at power-on: everything zero but the stack pointer,
    /// which is 0xFFFE, and the interrupt master enable flag, which is set.
    pub open spec fn power_on() -> Cpu {
        Cpu {
            b: 0,
            c: 0,
            d: 0,
            e: 0,
            h: 0,
            l: 0,
            a: 0,
            is_zero: false,
            is_subtraction: false,
            is_half_carry: false,
            is_carry: false,
            stack_pointer: 0xFFFE,
            program_counter: 0,
            halt: false,
            interrupts_enabled: true,
            debug: false,
        }
    }

    /// What an 8-bit register holds.
    pub open spec fn register(self, register: Register) -> u8 {
        match register {
            Register::B => self.b,
            Register::C => self.c,
            Register::D => self.d,
            Register::E => self.e,
            Register::H => self.h,
            Register::L => self.l,
            Register::A => self.a,
        }
    }

    /// The register file with `value` in an 8-bit register.
    pub open spec fn with_register(self, register: Register, value: u8) -> Cpu {
        match register {
            Register::B => Cpu { b: value, ..self },
            Register::C => Cpu { c: value, ..self },
            Register::D => Cpu { d: value, ..self },
            Register::E => Cpu { e: value, ..self },
            Register::H => Cpu { h: value, ..self },
            Register::L => Cpu { l: value, ..self },
            Register::A => Cpu { a: value, ..self },
        }
    }

    /// The flags packed into a byte: Zero in bit 7, Subtract in bit 6,
    /// Half-carry in bit 5, Carry in bit 4; the low nibble is zero.
    pub open spec fn flags_byte(self) -> u8 {
        (flag_bit(self.is_zero, 0x80) + flag_bit(self.is_subtraction, 0x40) + flag_bit(
            self.is_half_carry,
            0x20,
        ) + flag_bit(self.is_carry, 0x10)) as u8
    }

    /// The register file with the four flags taken from the upper nibble of
    /// `byte`.
    pub open spec fn with_flags_byte(self, byte: u8) -> Cpu {
        Cpu {
            is_zero: byte & 0b1000_0000 != 0,
            is_subtraction: byte & 0b0100_0000 != 0,
            is_half_carry: byte & 0b0010_0000 != 0,
            is_carry: byte & 0b0001_0000 != 0,
            ..self
        }
    }

    /// What a register pair holds. AF is the accumulator over the flag
    /// byte; the pairs are views of the 8-bit registers, not stored apart.
    pub open spec fn pair(self, register: DoubleRegister) -> u16 {
        match register {
            DoubleRegister::BC => word(self.b, self.c),
            DoubleRegister::DE => word(self.d, self.e),
            DoubleRegister::HL => word(self.h, self.l),
            DoubleRegister::AF => word(self.a, self.flags_byte()),
            DoubleRegister::SP => self.stack_pointer,
        }
    }

    /// The register file with `value` in a register pair. Of the low byte of
    /// AF only the four flags are kept.
    pub open spec fn with_pair(self, register: DoubleRegister, value: u16) -> Cpu {
        match register {
            DoubleRegister::BC => Cpu { b: (value / 256) as u8, c: (value % 256) as u8, ..self },
            DoubleRegister::DE => Cpu { d: (value / 256) as u8, e: (value % 256) as u8, ..self },
            DoubleRegister::HL => Cpu { h: (value / 256) as u8, l: (value % 256) as u8, ..self },
            DoubleRegister::AF => Cpu { a: (value / 256) as u8, ..self }.with_flags_byte(
                (value % 256) as u8,
            ),
            DoubleRegister::SP => Cpu { stack_pointer: value, ..self },
        }
    }

    /// Whether the condition of a conditional jump, call or return holds.
    pub open spec fn condition(self, flag: ConditionalFlag) -> bool {
        match flag {
            ConditionalFlag::NZ => !self.is_zero,
            ConditionalFlag::Z => self.is_zero,
            ConditionalFlag::NC => !self.is_carry,
            ConditionalFlag::C => self.is_carry,
        }
    }

    /// The register file with the program counter moved on by `length`,
    /// around the end of the address space.
    pub open spec fn advanced(self, length: u16) -> Cpu {
        Cpu { program_counter: self.program_counter.wrapping_add(length), ..self }
    }

    /// The register file after `value` and `carry` were added to the
    /// accumulator: Zero from the result, Subtract clear, Half-carry and
    /// Carry from the addition.
    pub open spec fn added(self, value: u8, carry: bool) -> Cpu {
        let sum = AluResult::adc(self.a, value, carry);
        Cpu {
            a: sum.result,
            is_zero: sum.result == 0,
            is_subtraction: false,
            is_half_carry: sum.half_carry,
            is_carry: sum.carry,
            ..self
        }
    }

    /// The register file after the accumulator was compared with `value`
    /// plus `carry`: the flags of the subtraction, the accumulator as it was.
    pub open spec fn compared(self, value: u8, carry: bool) -> Cpu {
        let difference = AluResult::sbc(self.a, value, carry);
        Cpu {
            is_zero: difference.result == 0,
            is_subtraction: true,
            is_half_carry: difference.half_carry,
            is_carry: difference.carry,
            ..self
        }
    }

    /// The register file after `value` and `carry` were subtracted from the
    /// accumulator.
    pub open spec fn subtracted(self, value: u8, carry: bool) -> Cpu {
        Cpu { a: AluResult::sbc(self.a, value, carry).result, ..self.compared(value, carry) }
    }

    /// The register file after a bitwise operation left `result` in the
    /// accumulator: Zero from the result, Half-carry as given, the other two
    /// flags clear.
    pub open spec fn combined(self, result: u8, half_carry: bool) -> Cpu {
        Cpu {
            a: result,
            is_zero: result == 0,
            is_subtraction: false,
            is_half_carry: half_carry,
            is_carry: false,
            ..self
        }
    }

    /// The register file after an operation of the arithmetic unit on the
    /// accumulator and `value`.
    pub open spec fn alu(self, op: AluOp, value: u8) -> Cpu {
        match op {
            AluOp::Add => self.added(value, false),
            AluOp::AddCarry => self.added(value, self.is_carry),
            AluOp::Subtract => self.subtracted(value, false),
            AluOp::SubtractCarry => self.subtracted(value, self.is_carry),
            AluOp::And => self.combined(self.a & value, true),
            AluOp::Xor => self.combined(self.a ^ value, false),
            AluOp::Or => self.combined(self.a | value, false),
            AluOp::Compare => self.compared(value, false),
        }
    }

    /// The register file with the three flags Zero, Subtract and Half-carry
    /// as given, the Carry flag as it was.
    pub open spec fn with_zero_subtract_half(self, zero: bool, subtraction: bool, half: bool) -> Cpu {
        Cpu { is_zero: zero, is_subtraction: subtraction, is_half_carry: half, ..self }
    }

    /// What an operation on one byte makes of `value`. The rotations through
    /// the carry take the Carry flag in.
    pub open spec fn unary_result(self, op: UnaryOp, value: u8) -> u8 {
        match op {
            UnaryOp::Increment => AluResult::adc(value, 1, false).result,
            UnaryOp::Decrement => AluResult::sbc(value, 1, false).result,
            UnaryOp::RotateLeft => rotated_left(value),
            UnaryOp::RotateLeftThroughCarry => rotated_left_through(value, self.is_carry),
            UnaryOp::RotateRight => rotated_right(value),
            UnaryOp::RotateRightThroughCarry => rotated_right_through(value, self.is_carry),
            UnaryOp::ShiftLeftArithmetic => value << 1,
            UnaryOp::Swap => swapped(value),
            UnaryOp::ShiftRightArithmetic => shifted_right_arithmetic(value),
            UnaryOp::ShiftRightLogical => value >> 1,
            UnaryOp::SetBit { bit } => with_bit_set(bit, value),
            UnaryOp::ResetBit { bit } => with_bit_reset(bit, value),
        }
    }

    /// The register file after an operation on one byte, the result itself
    /// left aside. Increment and decrement keep the Carry flag; rotations
    /// and shifts put the bit that left the byte into it; the swap clears
    /// it; setting and resetting a bit touch no flag.
    pub open spec fn unary_flags(self, op: UnaryOp, value: u8) -> Cpu {
        let zero = self.unary_result(op, value) == 0;
        match op {
            UnaryOp::Increment => self.with_zero_subtract_half(
                zero,
                false,
                AluResult::adc(value, 1, false).half_carry,
            ),
            UnaryOp::Decrement => self.with_zero_subtract_half(
                zero,
                true,
                AluResult::sbc(value, 1, false).half_carry,
            ),
            UnaryOp::RotateLeft
            | UnaryOp::RotateLeftThroughCarry
            | UnaryOp::ShiftLeftArithmetic => Cpu {
                is_carry: value & 0b1000_0000 != 0,
                ..self
            }.with_zero_subtract_half(zero, false, false),
            UnaryOp::RotateRight
            | UnaryOp::RotateRightThroughCarry
            | UnaryOp::ShiftRightArithmetic
            | UnaryOp::ShiftRightLogical => Cpu {
                is_carry: value & 0b0000_0001 != 0,
                ..self
            }.with_zero_subtract_half(zero, false, false),
            UnaryOp::Swap => Cpu { is_carry: false, ..self }.with_zero_subtract_half(
                zero,
                false,
                false,
            ),
            UnaryOp::SetBit { bit } => self,
            UnaryOp::ResetBit { bit } => self,
        }
    }

    /// The register file after one of the four rotations was applied to the
    /// accumulator by its short opcode: as the rotation of a register, but
    /// with the Zero flag clear.
    pub open spec fn accumulator_rotated(self, op: UnaryOp) -> Cpu {
        Cpu {
            a: self.unary_result(op, self.a),
            is_zero: false,
            ..self.unary_flags(op, self.a)
        }
    }

    /// The register file after bit `position` of `value` was tested: Zero
    /// is set if the bit is clear, and left alone for a position above 7;
    /// Subtract is clear, Half-carry set.
    pub open spec fn bit_tested(self, position: u8, value: u8) -> Cpu {
        self.with_zero_subtract_half(
            if position < 8 {
                crate::util::bit_from_top(value, 7 - position) == 0
            } else {
                self.is_zero
            },
            false,
            true,
        )
    }

    /// The register file after the accumulator was adjusted to packed
    /// decimal. The correction is 0x06 if Half-carry is set or, after an
    /// addition, the low nibble exceeds 9; 0x60 more, with Carry set, if
    /// Carry is set or, after an addition, the accumulator exceeds 0x99. It
    /// is subtracted after a subtraction and added otherwise. Half-carry is
    /// cleared, Carry never.
    pub open spec fn decimal_adjusted(self) -> Cpu {
        let low = self.is_half_carry || (!self.is_subtraction && (self.a & 0x0F) > 9);
        let high = self.is_carry || (!self.is_subtraction && self.a > 0x99);
        let correction: int = (if low {
            0x06int
        } else {
            0int
        }) + (if high {
            0x60int
        } else {
            0int
        });
        let result = if self.is_subtraction {
            ((self.a - correction) % 256) as u8
        } else {
            ((self.a + correction) % 256) as u8
        };
        Cpu { a: result, is_zero: result == 0, is_half_carry: false, is_carry: high, ..self }
    }

    /// The register file after `value` was added to HL: the low bytes
    /// first, the high bytes with the carry of the low ones. Half-carry and
    /// Carry come from the high bytes; Zero stays.
    pub open spec fn hl_added(self, value: u16) -> Cpu {
        let low = AluResult::adc(self.l, (value % 256) as u8, false);
        let high = AluResult::adc(self.h, (value / 256) as u8, low.carry);
        Cpu {
            l: low.result,
            h: high.result,
            is_subtraction: false,
            is_half_carry: high.half_carry,
            is_carry: high.carry,
            ..self
        }
    }

    /// The register file with the flags that adding the signed `offset` to
    /// the stack pointer gives: Zero and Subtract clear, Half-carry and
    /// Carry from adding `offset` to the low byte of the stack pointer.
    pub open spec fn offset_flags(self, offset: u8) -> Cpu {
        let low = AluResult::adc((self.stack_pointer % 256) as u8, offset, false);
        Cpu {
            is_zero: false,
            is_subtraction: false,
            is_half_carry: low.half_carry,
            is_carry: low.carry,
            ..self
        }
    }

    /// The register file as it is at power-on.
    pub fn new() -> (r: Cpu)
        ensures
            r == Cpu::power_on(),
    {
        Cpu {
            b: 0,
            c: 0,
            d: 0,
            e: 0,
            h: 0,
            l: 0,
            a: 0,
            is_zero: false,
            is_subtraction: false,
            is_half_carry: false,
            is_carry: false,
            stack_pointer: 0xFFFE,
            program_counter: 0,
            halt: false,
            interrupts_enabled: true,
            debug: false,
        }
    }

    /// The register pair BC.
    pub fn bc(&self) -> (r: u16)
        ensures
            r == self.pair(DoubleRegister::BC),
    {
        combine_bytes(self.b, self.c)
    }

    /// The register pair DE.
    pub fn de(&self) -> (r: u16)
        ensures
            r == self.pair(DoubleRegister::DE),
    {
        combine_bytes(self.d, self.e)
    }

    /// The register pair HL.
    pub fn hl(&self) -> (r: u16)
        ensures
            r == self.pair(DoubleRegister::HL),
    {
        combine_bytes(self.h, self.l)
    }

    /// Reads an 8-bit register.
    pub fn get_register(&self, register: Register) -> (r: u8)
        ensures
            r == self.register(register),
    {
        match register {
            Register::B => self.b,
            Register::C => self.c,
            Register::D => self.d,
            Register::E => self.e,
            Register::H => self.h,
            Register::L => self.l,
            Register::A => self.a,
        }
    }

    /// Writes an 8-bit register.
    pub fn set_register(&mut self, register: Register, value: u8)
        ensures
            *final(self) == old(self).with_register(register, value),
    {
        match register {
            Register::B => self.b = value,
            Register::C => self.c = value,
            Register::D => self.d = value,
            Register::E => self.e = value,
            Register::H => self.h = value,
            Register::L => self.l = value,
            Register::A => self.a = value,
        }
    }

    /// Reads a register pair.
    pub fn get_pair(&self, register: DoubleRegister) -> (r: u16)
        ensures
            r == self.pair(register),
    {
        match register {
            DoubleRegister::BC => self.bc(),
            DoubleRegister::DE => self.de(),
            DoubleRegister::HL => self.hl(),
            DoubleRegister::AF => combine_bytes(self.a, self.flags_to_byte()),
            DoubleRegister::SP => self.stack_pointer,
        }
    }

    /// Writes a register pair.
    pub fn set_pair(&mut self, register: DoubleRegister, value: u16)
        ensures
            *final(self) == old(self).with_pair(register, value),
    {
        let upper = get_upper_byte(value);
        let lower = get_lower_byte(value);
        match register {
            DoubleRegister::BC => {
                self.b = upper;
                self.c = lower;
            },
            DoubleRegister::DE => {
                self.d = upper;
                self.e = lower;
            },
            DoubleRegister::HL => {
                self.h = upper;
                self.l = lower;
            },
            DoubleRegister::AF => {
                self.a = upper;
                self.byte_to_flags(lower);
            },
            DoubleRegister::SP => {
                self.stack_pointer = value;
            },
        }
    }

    /// Moves HL on by one, around the end of the address space.
    pub fn increment_hl(&mut self)
        ensures
            *final(self) == old(self).with_pair(
                DoubleRegister::HL,
                old(self).pair(DoubleRegister::HL).wrapping_add(1),
            ),
    {
        let result: u16 = self.hl().wrapping_add(1);
        self.set_pair(DoubleRegister::HL, result);
    }

    /// Moves HL back by one, around the start of the address space.
    pub fn decrement_hl(&mut self)
        ensures
            *final(self) == old(self).with_pair(
                DoubleRegister::HL,
                old(self).pair(DoubleRegister::HL).wrapping_sub(1),
            ),
    {
        let result: u16 = self.hl().wrapping_sub(1);
        self.set_pair(DoubleRegister::HL, result);
    }

    /// Packs the four flags into the flag byte.
    pub fn flags_to_byte(&self) -> (r: u8)
        ensures
            r == self.flags_byte(),
            r % 16 == 0,
    {
        let zero: u8 = if self.is_zero {
            0x80
        } else {
            0
        };
        let subtraction: u8 = if self.is_subtraction {
            0x40
        } else {
            0
        };
        let half_carry: u8 = if self.is_half_carry {
            0x20
        } else {
            0
        };
        let carry: u8 = if self.is_carry {
            0x10
        } else {
            0
        };
        zero + subtraction + half_carry + carry
    }

    /// Takes the four flags from the upper nibble of `byte`.
    pub fn byte_to_flags(&mut self, byte: u8)
        ensures
            *final(self) == old(self).with_flags_byte(byte),
    {
        self.is_zero = (byte & 0b1000_0000) != 0;
        self.is_subtraction = (byte & 0b0100_0000) != 0;
        self.is_half_carry = (byte & 0b0010_0000) != 0;
        self.is_carry = (byte & 0b0001_0000) != 0;
    }

    /// Tells whether the condition of a conditional jump, call or return
    /// holds.
    pub fn test_condition(&self, flag: ConditionalFlag) -> (r: bool)
        ensures
            r == self.condition(flag),
    {
        match flag {
            ConditionalFlag::NZ => !self.is_zero,
            ConditionalFlag::Z => self.is_zero,
            ConditionalFlag::NC => !self.is_carry,
            ConditionalFlag::C => self.is_carry,
        }
    }

    /// Moves the program counter on by `length`.
    pub fn advance(&mut self, length: u16)
        ensures
            *final(self) == old(self).advanced(length),
    {
        self.program_counter = self.program_counter.wrapping_add(length);
    }

    /// Adds `value` to the `A` register and sets the flags (z0hc).
    pub fn wrapped_addition(&mut self, value: u8)
        ensures
            *final(self) == old(self).added(value, false),
    {
        self.wrapped_addition_carry(value, false);
    }

    /// Adds `value` and `carry` to the `A` register and sets the flags (z0hc).
    pub fn wrapped_addition_carry(&mut self, value: u8, carry: bool)
        ensures
            *final(self) == old(self).added(value, carry),
    {
        let alu = AluResult::from_adc(self.a, value, carry);

        self.a = alu.result;
        self.is_zero = alu.result == 0;
        self.is_subtraction = false;
        self.is_half_carry = alu.half_carry;
        self.is_carry = alu.carry;
    }

    /// Returns the result of subtracting `value` from the `A` register and
    /// sets the flags (z1hc).
    pub fn wrapped_subtraction(&mut self, value: u8) -> (r: u8)
        ensures
            *final(self) == old(self).compared(value, false),
            r == AluResult::sbc(old(self).a, value, false).result,
    {
        self.wrapped_subtraction_carry(value, false)
    }

    /// Returns the result of subtracting `value` and `carry` from the `A`
    /// register and sets the flags (z1hc).
    pub fn wrapped_subtraction_carry(&mut self, value: u8, carry: bool) -> (r: u8)
        ensures
            *final(self) == old(self).compared(value, carry),
            r == AluResult::sbc(old(self).a, value, carry).result,
    {
        let alu = AluResult::from_sbc(self.a, value, carry);

        self.is_zero = alu.result == 0;
        self.is_subtraction = true;
        self.is_half_carry = alu.half_carry;
        self.is_carry = alu.carry;

        alu.result
    }

    fn combine(&mut self, result: u8, half_carry: bool)
        ensures
            *final(self) == old(self).combined(result, half_carry),
    {
        self.a = result;
        self.is_zero = result == 0;
        self.is_subtraction = false;
        self.is_half_carry = half_carry;
        self.is_carry = false;
    }

    /// Carries out an operation of the arithmetic unit on the accumulator
    /// and `value`.
    pub fn apply_alu(&mut self, op: AluOp, value: u8)
        ensures
            *final(self) == old(self).alu(op, value),
    {
        match op {
            AluOp::Add => self.wrapped_addition(value),
            AluOp::AddCarry => {
                let carry = self.is_carry;
                self.wrapped_addition_carry(value, carry)
            },
            AluOp::Subtract => {
                let result = self.wrapped_subtraction(value);
                self.a = result;
            },
            AluOp::SubtractCarry => {
                let carry = self.is_carry;
                let result = self.wrapped_subtraction_carry(value, carry);
                self.a = result;
            },
            AluOp::And => {
                let result: u8 = self.a & value;
                self.combine(result, true)
            },
            AluOp::Xor => {
                let result: u8 = self.a ^ value;
                self.combine(result, false)
            },
            AluOp::Or => {
                let result: u8 = self.a | value;
                self.combine(result, false)
            },
            AluOp::Compare => {
                let _ = self.wrapped_subtraction(value);
            },
        }
    }
}

impl Cpu {
    /// Returns the left rotated value and sets the carry flag.
    pub fn rotate_left(&mut self, value: u8) -> (r: u8)
        ensures
            r == rotated_left(value),
            *final(self) == (Cpu { is_carry: value & 0b1000_0000 != 0, ..*old(self) }),
    {
        let result: u8 = (value << 1) | (value >> 7);
        self.is_carry = value & 0b1000_0000 != 0;
        result
    }

    /// Returns the left rotated through carry value and sets the carry flag.
    pub fn rotate_left_through_carry(&mut self, value: u8) -> (r: u8)
        ensures
            r == rotated_left_through(value, old(self).is_carry),
            *final(self) == (Cpu { is_carry: value & 0b1000_0000 != 0, ..*old(self) }),
    {
        let carry: u8 = if self.is_carry {
            1
        } else {
            0
        };
        let result: u8 = (value << 1) | carry;
        self.is_carry = value & 0b1000_0000 != 0;
        result
    }

    /// Returns the right rotated value and sets the carry flag.
    pub fn rotate_right(&mut self, value: u8) -> (r: u8)
        ensures
            r == rotated_right(value),
            *final(self) == (Cpu { is_carry: value & 0b0000_0001 != 0, ..*old(self) }),
    {
        let result: u8 = (value >> 1) | (value << 7);
        self.is_carry = value & 0b0000_0001 != 0;
        result
    }

    /// Returns the right rotated through carry value and sets the carry flag.
    pub fn rotate_right_through_carry(&mut self, value: u8) -> (r: u8)
        ensures
            r == rotated_right_through(value, old(self).is_carry),
            *final(self) == (Cpu { is_carry: value & 0b0000_0001 != 0, ..*old(self) }),
    {
        let carry: u8 = if self.is_carry {
            0b1000_0000
        } else {
            0
        };
        let result: u8 = (value >> 1) | carry;
        self.is_carry = value & 0b0000_0001 != 0;
        result
    }

    /// Returns the left shifted value and sets the zero and carry flags.
    pub fn shift_left(&mut self, value: u8) -> (r: u8)
        ensures
            r == value << 1,
            *final(self) == (Cpu {
                is_zero: r == 0,
                is_carry: value & 0b1000_0000 != 0,
                ..*old(self)
            }),
    {
        let result: u8 = value << 1;
        self.is_zero = result == 0;
        self.is_carry = value & 0b1000_0000 != 0;
        result
    }

    /// Swaps the upper and lower nibble of `value` and sets the zero flag.
    pub fn swap(&mut self, value: u8) -> (r: u8)
        ensures
            r == swapped(value),
            *final(self) == (Cpu { is_zero: r == 0, ..*old(self) }),
    {
        let result: u8 = (value << 4) | (value >> 4);
        self.is_zero = result == 0;
        result
    }

    /// Returns the arithmetically right shifted value and sets the zero and
    /// carry flags.
    pub fn shift_right_arithmetic(&mut self, value: u8) -> (r: u8)
        ensures
            r == shifted_right_arithmetic(value),
            *final(self) == (Cpu {
                is_zero: r == 0,
                is_carry: value & 0b0000_0001 != 0,
                ..*old(self)
            }),
    {
        let result: u8 = (value >> 1) | (value & 0b1000_0000);
        self.is_zero = result == 0;
        self.is_carry = value & 0b0000_0001 != 0;
        result
    }

    /// Returns the logically right shifted value and sets the zero and carry
    /// flags.
    pub fn shift_right_logical(&mut self, value: u8) -> (r: u8)
        ensures
            r == value >> 1,
            *final(self) == (Cpu {
                is_zero: r == 0,
                is_carry: value & 0b0000_0001 != 0,
                ..*old(self)
            }),
    {
        let result: u8 = value >> 1;
        self.is_zero = result == 0;
        self.is_carry = value & 0b0000_0001 != 0;
        result
    }

    /// Tests the bit of `value` at `position` and sets the zero flag if it
    /// is clear.
    ///
    /// Bits are indexed from 7 down to 0, where bit 7 is the leftmost bit.
    pub fn test_bit(&mut self, position: u8, value: u8)
        ensures
            *final(self) == (Cpu {
                is_zero: old(self).bit_tested(position, value).is_zero,
                ..*old(self)
            }),
    {
        let bits = crate::util::get_as_bits(value);

        if position < 8 {
            self.is_zero = bits[7 - position as usize] == 0;
        }
    }

    /// Sets the bit of `value` at `position`.
    ///
    /// Bits are indexed from 7 down to 0, where bit 7 is the leftmost bit.
    pub fn set_bit(&mut self, position: u8, value: u8) -> (r: u8)
        ensures
            r == with_bit_set(position, value),
            *final(self) == *old(self),
    {
        if position < 8 {
            value | (1u8 << position)
        } else {
            value
        }
    }

    /// Resets the bit of `value` at `position`.
    ///
    /// Bits are indexed from 7 down to 0, where bit 7 is the leftmost bit.
    pub fn reset_bit(&mut self, position: u8, value: u8) -> (r: u8)
        ensures
            r == with_bit_reset(position, value),
            *final(self) == *old(self),
    {
        if position < 8 {
            value & !(1u8 << position)
        } else {
            value
        }
    }

    /// Carries out an operation on one byte: returns what it makes of
    /// `value` and sets the flags.
    pub fn apply_unary(&mut self, op: UnaryOp, value: u8) -> (r: u8)
        ensures
            r == old(self).unary_result(op, value),
            *final(self) == old(self).unary_flags(op, value),
    {
        match op {
            UnaryOp::Increment => {
                let alu = AluResult::from_add(value, 1);
                self.set_zero_subtract_half(alu.result == 0, false, alu.half_carry);
                alu.result
            },
            UnaryOp::Decrement => {
                let alu = AluResult::from_sub(value, 1);
                self.set_zero_subtract_half(alu.result == 0, true, alu.half_carry);
                alu.result
            },
            UnaryOp::RotateLeft => {
                let result = self.rotate_left(value);
                self.set_zero_subtract_half(result == 0, false, false);
                result
            },
            UnaryOp::RotateLeftThroughCarry => {
                let result = self.rotate_left_through_carry(value);
                self.set_zero_subtract_half(result == 0, false, false);
                result
            },
            UnaryOp::RotateRight => {
                let result = self.rotate_right(value);
                self.set_zero_subtract_half(result == 0, false, false);
                result
            },
            UnaryOp::RotateRightThroughCarry => {
                let result = self.rotate_right_through_carry(value);
                self.set_zero_subtract_half(result == 0, false, false);
                result
            },
            UnaryOp::ShiftLeftArithmetic => {
                let result = self.shift_left(value);
                self.set_zero_subtract_half(result == 0, false, false);
                result
            },
            UnaryOp::Swap => {
                let result = self.swap(value);
                self.is_carry = false;
                self.set_zero_subtract_half(result == 0, false, false);
                result
            },
            UnaryOp::ShiftRightArithmetic => {
                let result = self.shift_right_arithmetic(value);
                self.set_zero_subtract_half(result == 0, false, false);
                result
            },
            UnaryOp::ShiftRightLogical => {
                let result = self.shift_right_logical(value);
                self.set_zero_subtract_half(result == 0, false, false);
                result
            },
            UnaryOp::SetBit { bit } => self.set_bit(bit, value),
            UnaryOp::ResetBit { bit } => self.reset_bit(bit, value),
        }
    }

    fn set_zero_subtract_half(&mut self, zero: bool, subtraction: bool, half: bool)
        ensures
            *final(self) == old(self).with_zero_subtract_half(zero, subtraction, half),
    {
        self.is_zero = zero;
        self.is_subtraction = subtraction;
        self.is_half_carry = half;
    }

    /// Rotates the accumulator by one of the four short rotation opcodes.
    pub fn rotate_accumulator(&mut self, op: UnaryOp)
        ensures
            *final(self) == old(self).accumulator_rotated(op),
    {
        let value = self.a;
        let result = self.apply_unary(op, value);
        self.a = result;
        self.is_zero = false;
    }

    /// Tests a bit of `value` for the BIT instruction.
    pub fn apply_bit_test(&mut self, position: u8, value: u8)
        ensures
            *final(self) == old(self).bit_tested(position, value),
    {
        self.test_bit(position, value);
        self.is_subtraction = false;
        self.is_half_carry = true;
    }

    /// Adjusts the accumulator to packed decimal after an addition or a
    /// subtraction of packed decimal numbers.
    pub fn decimal_adjust(&mut self)
        ensures
            *final(self) == old(self).decimal_adjusted(),
    {
        let mut correction: u16 = 0;

        if self.is_half_carry || (!self.is_subtraction && (self.a & 0x0F) > 9) {
            correction += 0x06;
        }
        if self.is_carry || (!self.is_subtraction && self.a > 0x99) {
            correction += 0x60;
            self.is_carry = true;
        }
        if self.is_subtraction {
            let result: i16 = self.a as i16 - correction as i16;
            self.a = if result < 0 {
                (result + 256) as u8
            } else {
                result as u8
            };
        } else {
            let result: u16 = self.a as u16 + correction;
            self.a = (result % 256) as u8;
        }
        self.is_zero = self.a == 0;
        self.is_half_carry = false;
    }

    /// Adds `value` to HL.
    pub fn add_to_hl(&mut self, value: u16)
        ensures
            *final(self) == old(self).hl_added(value),
    {
        let low = AluResult::from_add(self.l, get_lower_byte(value));
        self.l = low.result;

        let high = AluResult::from_adc(self.h, get_upper_byte(value), low.carry);

        self.is_subtraction = false;
        self.is_half_carry = high.half_carry;
        self.is_carry = high.carry;
        self.h = high.result;
    }

    /// Sets the flags for adding the signed `offset` to the stack pointer.
    pub fn set_offset_flags(&mut self, offset: u8)
        ensures
            *final(self) == old(self).offset_flags(offset),
    {
        let alu = AluResult::from_add(get_lower_byte(self.stack_pointer), offset);
        self.is_zero = false;
        self.is_subtraction = false;
        self.is_half_carry = alu.half_carry;
        self.is_carry = alu.carry;
    }
}

impl Default for Cpu {
    /// A register file with every register zero and every flag clear, the
    /// interrupt master enable flag among them.
    fn default() -> (r: Cpu)
        ensures
            r == (Cpu { stack_pointer: 0, interrupts_enabled: false, ..Cpu::power_on() }),
    {
        Cpu {
            b: 0,
            c: 0,
            d: 0,
            e: 0,
            h: 0,
            l: 0,
            a: 0,
            is_zero: false,
            is_subtraction: false,
            is_half_carry: false,
            is_carry: false,
            stack_pointer: 0,
            program_counter: 0,
            halt: false,
            interrupts_enabled: false,
            debug: false,
        }
    }
}

} // verus!
