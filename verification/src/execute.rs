use vstd::prelude::*;
use crate::cpu::{AluOp, Cpu, CpuBus, UnaryOp};
use crate::instructions::{DoubleRegister, Instruction, InstructionClass};
use crate::state::{high_page, restart_vector, Source, Target};
use crate::util::{combine_bytes, get_lower_byte, get_upper_byte, sign_extend};

verus! {

impl Cpu {
    /// Reads the immediate byte behind the opcode.
    pub fn fetch_operand8(&self, cpu_bus: &mut impl CpuBus) -> (value: u8)
        ensures
            value == self.on(*old(cpu_bus)).operand8(),
            self.on(*final(cpu_bus)) == self.on(*old(cpu_bus)).after_operand8(),
    {
        cpu_bus.read(self.program_counter.wrapping_add(1))
    }

    /// Reads the immediate word behind the opcode, low byte first.
    pub fn fetch_operand16(&self, cpu_bus: &mut impl CpuBus) -> (value: u16)
        ensures
            value == self.on(*old(cpu_bus)).operand16(),
            self.on(*final(cpu_bus)) == self.on(*old(cpu_bus)).after_operand16(),
    {
        let low = cpu_bus.read(self.program_counter.wrapping_add(1));
        let high = cpu_bus.read(self.program_counter.wrapping_add(2));
        combine_bytes(high, low)
    }

    /// Takes the byte that `source` yields.
    pub fn fetch(&self, source: Source, cpu_bus: &mut impl CpuBus) -> (value: u8)
        ensures
            value == self.on(*old(cpu_bus)).value(source),
            self.on(*final(cpu_bus)) == self.on(*old(cpu_bus)).fetched(source),
    {
        match source {
            Source::Register { register } => self.get_register(register),
            Source::Indirect => cpu_bus.read(self.hl()),
            Source::Immediate => self.fetch_operand8(cpu_bus),
        }
    }

    /// Puts `value` into `target`.
    pub fn store(&mut self, target: Target, value: u8, cpu_bus: &mut impl CpuBus)
        ensures
            final(self).on(*final(cpu_bus)) == old(self).on(*old(cpu_bus)).stored(target, value),
    {
        match target {
            Target::Register { register } => self.set_register(register, value),
            Target::Indirect => cpu_bus.write(self.hl(), value),
        }
    }

    fn load(&mut self, target: Target, source: Source, cpu_bus: &mut impl CpuBus)
        ensures
            final(self).on(*final(cpu_bus)) == old(self).on(*old(cpu_bus)).load(target, source),
    {
        let value = self.fetch(source, cpu_bus);
        self.store(target, value, cpu_bus);
        self.advance(Self::length_with(source));
    }

    fn length_with(source: Source) -> (length: u16)
        ensures
            length == source.length(),
    {
        match source {
            Source::Immediate => 2,
            _ => 1,
        }
    }

    fn source_of(target: Target) -> (source: Source)
        ensures
            source == target.source(),
    {
        match target {
            Target::Register { register } => Source::Register { register },
            Target::Indirect => Source::Indirect,
        }
    }

    fn load_accumulator(&mut self, address: u16, cpu_bus: &mut impl CpuBus)
        ensures
            final(self).on(*final(cpu_bus)) == old(self).on(*old(cpu_bus)).accumulator_loaded(
                address,
            ),
    {
        self.a = cpu_bus.read(address);
    }

    fn store_accumulator(&mut self, address: u16, cpu_bus: &mut impl CpuBus)
        ensures
            final(self).on(*final(cpu_bus)) == old(self).on(*old(cpu_bus)).accumulator_stored(
                address,
            ),
    {
        cpu_bus.write(address, self.a);
    }

    fn high_page_address(offset: u8) -> (address: u16)
        ensures
            address == high_page(offset),
    {
        0xFF00 + offset as u16
    }

    fn arithmetic(&mut self, op: AluOp, source: Source, cpu_bus: &mut impl CpuBus)
        ensures
            final(self).on(*final(cpu_bus)) == old(self).on(*old(cpu_bus)).arithmetic(op, source),
    {
        let value = self.fetch(source, cpu_bus);
        self.apply_alu(op, value);
        self.advance(Self::length_with(source));
    }

    fn modify(&mut self, op: UnaryOp, target: Target, length: u16, cpu_bus: &mut impl CpuBus)
        ensures
            final(self).on(*final(cpu_bus)) == old(self).on(*old(cpu_bus)).modify(
                op,
                target,
                length,
            ),
    {
        let value = self.fetch(Self::source_of(target), cpu_bus);
        let result = self.apply_unary(op, value);
        self.store(target, result, cpu_bus);
        self.advance(length);
    }

    fn test(&mut self, bit: u8, source: Source, cpu_bus: &mut impl CpuBus)
        ensures
            final(self).on(*final(cpu_bus)) == old(self).on(*old(cpu_bus)).test(bit, source),
    {
        let value = self.fetch(source, cpu_bus);
        self.apply_bit_test(bit, value);
        self.advance(2);
    }

    fn jump_relative(&mut self, taken: bool, cpu_bus: &mut impl CpuBus)
        ensures
            final(self).on(*final(cpu_bus)) == old(self).on(*old(cpu_bus)).jumped_relative(taken),
    {
        let offset = self.fetch_operand8(cpu_bus);
        self.advance(2);
        if taken {
            self.program_counter = self.program_counter.wrapping_add(sign_extend(offset));
        }
    }

    fn jump_absolute(&mut self, taken: bool, cpu_bus: &mut impl CpuBus)
        ensures
            final(self).on(*final(cpu_bus)) == old(self).on(*old(cpu_bus)).jumped_absolute(taken),
    {
        let address = self.fetch_operand16(cpu_bus);
        if taken {
            self.program_counter = address;
        } else {
            self.advance(3);
        }
    }

    fn call_absolute(&mut self, taken: bool, cpu_bus: &mut impl CpuBus)
        ensures
            final(self).on(*final(cpu_bus)) == old(self).on(*old(cpu_bus)).called_absolute(taken),
    {
        let address = self.fetch_operand16(cpu_bus);
        self.advance(3);
        if taken {
            self.call_address(cpu_bus, address);
        }
    }

    fn restart(&mut self, location: u8, second: bool, cpu_bus: &mut impl CpuBus)
        ensures
            final(self).on(*final(cpu_bus)) == old(self).on(*old(cpu_bus)).advanced(1).called(
                restart_vector(location, second),
            ),
    {
        let offset: u16 = if second {
            8
        } else {
            0
        };
        self.advance(1);
        self.call_address(cpu_bus, ((location % 4) * 0x10) as u16 + offset);
    }

    fn offset_stack_pointer(&mut self, register: DoubleRegister, cpu_bus: &mut impl CpuBus)
        ensures
            final(self).on(*final(cpu_bus)) == old(self).on(*old(cpu_bus)).after_operand8().with_cpu(
                old(self).offset_flags(old(self).on(*old(cpu_bus)).operand8()),
            ).with_pair(
                register,
                old(self).stack_pointer.wrapping_add(
                    crate::util::sign_extended(old(self).on(*old(cpu_bus)).operand8()),
                ),
            ).advanced(2),
    {
        let offset = self.fetch_operand8(cpu_bus);
        let moved: u16 = self.stack_pointer.wrapping_add(sign_extend(offset));
        self.set_offset_flags(offset);
        self.set_pair(register, moved);
        self.advance(2);
    }
}

impl Cpu {
    /// The 8-bit loads.
    fn run_load8(&mut self, instruction: Instruction, cpu_bus: &mut impl CpuBus)
        requires
            instruction.class() == InstructionClass::Load8,
        ensures
            final(self).on(*final(cpu_bus)) == old(self).on(*old(cpu_bus)).run(instruction),
    {
        match instruction {
            Instruction::LoadReg { dst, src } => self.load(
                Target::Register { register: dst },
                Source::Register { register: src },
                cpu_bus,
            ),
            Instruction::LoadReg8 { register } => self.load(
                Target::Register { register },
                Source::Immediate,
                cpu_bus,
            ),
            Instruction::LoadRegHL { register } => self.load(
                Target::Register { register },
                Source::Indirect,
                cpu_bus,
            ),
            Instruction::LoadHLReg { register } => self.load(
                Target::Indirect,
                Source::Register { register },
                cpu_bus,
            ),
            Instruction::LoadHL8 => self.load(Target::Indirect, Source::Immediate, cpu_bus),
            Instruction::LoadABC => {
                self.load_accumulator(self.bc(), cpu_bus);
                self.advance(1);
            },
            Instruction::LoadADE => {
                self.load_accumulator(self.de(), cpu_bus);
                self.advance(1);
            },
            Instruction::LoadAAddress => {
                let address = self.fetch_operand16(cpu_bus);
                self.load_accumulator(address, cpu_bus);
                self.advance(3);
            },
            Instruction::LoadBCA => {
                self.store_accumulator(self.bc(), cpu_bus);
                self.advance(1);
            },
            Instruction::LoadDEA => {
                self.store_accumulator(self.de(), cpu_bus);
                self.advance(1);
            },
            Instruction::LoadAddressA => {
                let address = self.fetch_operand16(cpu_bus);
                self.store_accumulator(address, cpu_bus);
                self.advance(3);
            },
            Instruction::LoadAOffset => {
                let offset = self.fetch_operand8(cpu_bus);
                self.load_accumulator(Self::high_page_address(offset), cpu_bus);
                self.advance(2);
            },
            Instruction::LoadOffsetA => {
                let offset = self.fetch_operand8(cpu_bus);
                self.store_accumulator(Self::high_page_address(offset), cpu_bus);
                self.advance(2);
            },
            Instruction::LoadAOffsetC => {
                self.load_accumulator(Self::high_page_address(self.c), cpu_bus);
                self.advance(1);
            },
            Instruction::LoadOffsetCA => {
                self.store_accumulator(Self::high_page_address(self.c), cpu_bus);
                self.advance(1);
            },
            Instruction::LoadIncrementHLA => {
                self.store_accumulator(self.hl(), cpu_bus);
                self.increment_hl();
                self.advance(1);
            },
            Instruction::LoadIncrementAHL => {
                self.load_accumulator(self.hl(), cpu_bus);
                self.increment_hl();
                self.advance(1);
            },
            Instruction::LoadDecrementHLA => {
                self.store_accumulator(self.hl(), cpu_bus);
                self.decrement_hl();
                self.advance(1);
            },
            Instruction::LoadDecrementAHL => {
                self.load_accumulator(self.hl(), cpu_bus);
                self.decrement_hl();
                self.advance(1);
            },
            _ => {},
        }
    }

    /// The 16-bit loads, with push and pop.
    fn run_load16(&mut self, instruction: Instruction, cpu_bus: &mut impl CpuBus)
        requires
            instruction.class() == InstructionClass::Load16,
        ensures
            final(self).on(*final(cpu_bus)) == old(self).on(*old(cpu_bus)).run(instruction),
    {
        match instruction {
            Instruction::LoadReg16 { register } => {
                let value = self.fetch_operand16(cpu_bus);
                self.set_pair(register, value);
                self.advance(3);
            },
            Instruction::LoadAddressSP => {
                let address = self.fetch_operand16(cpu_bus);
                cpu_bus.write(address, get_lower_byte(self.stack_pointer));
                cpu_bus.write(address.wrapping_add(1), get_upper_byte(self.stack_pointer));
                self.advance(3);
            },
            Instruction::LoadSPHL => {
                self.stack_pointer = self.hl();
                self.advance(1);
            },
            Instruction::PushReg { register } => {
                let value = self.get_pair(register);
                self.push_word(cpu_bus, value);
                self.advance(1);
            },
            Instruction::PopReg { register } => {
                let value = self.pop_word(cpu_bus);
                self.set_pair(register, value);
                self.advance(1);
            },
            _ => {},
        }
    }

    /// The arithmetic and logic of the accumulator with a second byte.
    fn run_arithmetic8(&mut self, instruction: Instruction, cpu_bus: &mut impl CpuBus)
        requires
            instruction.class() == InstructionClass::Arithmetic8,
        ensures
            final(self).on(*final(cpu_bus)) == old(self).on(*old(cpu_bus)).run(instruction),
    {
        match instruction {
            Instruction::AddAReg { register } => self.arithmetic(
                AluOp::Add,
                Source::Register { register },
                cpu_bus,
            ),
            Instruction::AddA => self.arithmetic(AluOp::Add, Source::Immediate, cpu_bus),
            Instruction::AddAHL => self.arithmetic(AluOp::Add, Source::Indirect, cpu_bus),
            Instruction::AddCarryAReg { register } => self.arithmetic(
                AluOp::AddCarry,
                Source::Register { register },
                cpu_bus,
            ),
            Instruction::AddCarryA => self.arithmetic(AluOp::AddCarry, Source::Immediate, cpu_bus),
            Instruction::AddCarryAHL => self.arithmetic(AluOp::AddCarry, Source::Indirect, cpu_bus),
            Instruction::SubtractAReg { register } => self.arithmetic(
                AluOp::Subtract,
                Source::Register { register },
                cpu_bus,
            ),
            Instruction::SubtractA => self.arithmetic(AluOp::Subtract, Source::Immediate, cpu_bus),
            Instruction::SubtractAHL => self.arithmetic(AluOp::Subtract, Source::Indirect, cpu_bus),
            Instruction::SubtractARegCarry { register } => self.arithmetic(
                AluOp::SubtractCarry,
                Source::Register { register },
                cpu_bus,
            ),
            Instruction::SubtractACarry => self.arithmetic(
                AluOp::SubtractCarry,
                Source::Immediate,
                cpu_bus,
            ),
            Instruction::SubtractAHLCarry => self.arithmetic(
                AluOp::SubtractCarry,
                Source::Indirect,
                cpu_bus,
            ),
            Instruction::AndAReg { register } => self.arithmetic(
                AluOp::And,
                Source::Register { register },
                cpu_bus,
            ),
            Instruction::AndA => self.arithmetic(AluOp::And, Source::Immediate, cpu_bus),
            Instruction::AndAHL => self.arithmetic(AluOp::And, Source::Indirect, cpu_bus),
            Instruction::XorAReg { register } => self.arithmetic(
                AluOp::Xor,
                Source::Register { register },
                cpu_bus,
            ),
            Instruction::XorA => self.arithmetic(AluOp::Xor, Source::Immediate, cpu_bus),
            Instruction::XorAHL => self.arithmetic(AluOp::Xor, Source::Indirect, cpu_bus),
            Instruction::OrAReg { register } => self.arithmetic(
                AluOp::Or,
                Source::Register { register },
                cpu_bus,
            ),
            Instruction::OrA => self.arithmetic(AluOp::Or, Source::Immediate, cpu_bus),
            Instruction::OrAHL => self.arithmetic(AluOp::Or, Source::Indirect, cpu_bus),
            Instruction::CompareAReg { register } => self.arithmetic(
                AluOp::Compare,
                Source::Register { register },
                cpu_bus,
            ),
            Instruction::CompareA => self.arithmetic(AluOp::Compare, Source::Immediate, cpu_bus),
            Instruction::CompareAHL => self.arithmetic(AluOp::Compare, Source::Indirect, cpu_bus),
            _ => {},
        }
    }

    /// Increment and decrement of a byte, decimal adjust, complement.
    fn run_adjust8(&mut self, instruction: Instruction, cpu_bus: &mut impl CpuBus)
        requires
            instruction.class() == InstructionClass::Adjust8,
        ensures
            final(self).on(*final(cpu_bus)) == old(self).on(*old(cpu_bus)).run(instruction),
    {
        match instruction {
            Instruction::IncrementReg { register } => self.modify(
                UnaryOp::Increment,
                Target::Register { register },
                1,
                cpu_bus,
            ),
            Instruction::IncrementHL => self.modify(
                UnaryOp::Increment,
                Target::Indirect,
                1,
                cpu_bus,
            ),
            Instruction::DecrementReg { register } => self.modify(
                UnaryOp::Decrement,
                Target::Register { register },
                1,
                cpu_bus,
            ),
            Instruction::DecrementHL => self.modify(
                UnaryOp::Decrement,
                Target::Indirect,
                1,
                cpu_bus,
            ),
            Instruction::DecimalAdjustA => {
                self.decimal_adjust();
                self.advance(1);
            },
            Instruction::Complement => {
                self.a = self.a ^ 0xFF;
                self.is_subtraction = true;
                self.is_half_carry = true;
                self.advance(1);
            },
            _ => {},
        }
    }

    /// The 16-bit arithmetic.
    fn run_arithmetic16(&mut self, instruction: Instruction, cpu_bus: &mut impl CpuBus)
        requires
            instruction.class() == InstructionClass::Arithmetic16,
        ensures
            final(self).on(*final(cpu_bus)) == old(self).on(*old(cpu_bus)).run(instruction),
    {
        match instruction {
            Instruction::AddHLReg { register } => {
                let value = self.get_pair(register);
                self.add_to_hl(value);
                self.advance(1);
            },
            Instruction::IncrementReg16 { register } => {
                let value: u16 = self.get_pair(register).wrapping_add(1);
                self.set_pair(register, value);
                self.advance(1);
            },
            Instruction::DecrementReg16 { register } => {
                let value: u16 = self.get_pair(register).wrapping_sub(1);
                self.set_pair(register, value);
                self.advance(1);
            },
            Instruction::AddSPOffset => self.offset_stack_pointer(DoubleRegister::SP, cpu_bus),
            Instruction::LoadHLSPOffset => self.offset_stack_pointer(DoubleRegister::HL, cpu_bus),
            _ => {},
        }
    }

    /// The rotations, the shifts and the swap.
    fn run_rotate(&mut self, instruction: Instruction, cpu_bus: &mut impl CpuBus)
        requires
            instruction.class() == InstructionClass::Rotate,
        ensures
            final(self).on(*final(cpu_bus)) == old(self).on(*old(cpu_bus)).run(instruction),
    {
        match instruction {
            Instruction::RotateALeft => {
                self.rotate_accumulator(UnaryOp::RotateLeft);
                self.advance(1);
            },
            Instruction::RotateALeftThroughCarry => {
                self.rotate_accumulator(UnaryOp::RotateLeftThroughCarry);
                self.advance(1);
            },
            Instruction::RotateARight => {
                self.rotate_accumulator(UnaryOp::RotateRight);
                self.advance(1);
            },
            Instruction::RotateARightThroughCarry => {
                self.rotate_accumulator(UnaryOp::RotateRightThroughCarry);
                self.advance(1);
            },
            Instruction::RotateLeft { register } => self.modify(
                UnaryOp::RotateLeft,
                Target::Register { register },
                2,
                cpu_bus,
            ),
            Instruction::RotateHLLeft => self.modify(
                UnaryOp::RotateLeft,
                Target::Indirect,
                2,
                cpu_bus,
            ),
            Instruction::RotateLeftThroughCarry { register } => self.modify(
                UnaryOp::RotateLeftThroughCarry,
                Target::Register { register },
                2,
                cpu_bus,
            ),
            Instruction::RotateHLLeftThroughCarry => self.modify(
                UnaryOp::RotateLeftThroughCarry,
                Target::Indirect,
                2,
                cpu_bus,
            ),
            Instruction::RotateRight { register } => self.modify(
                UnaryOp::RotateRight,
                Target::Register { register },
                2,
                cpu_bus,
            ),
            Instruction::RotateHLRight => self.modify(
                UnaryOp::RotateRight,
                Target::Indirect,
                2,
                cpu_bus,
            ),
            Instruction::RotateRightThroughCarry { register } => self.modify(
                UnaryOp::RotateRightThroughCarry,
                Target::Register { register },
                2,
                cpu_bus,
            ),
            Instruction::RotateHLRightThroughCarry => self.modify(
                UnaryOp::RotateRightThroughCarry,
                Target::Indirect,
                2,
                cpu_bus,
            ),
            Instruction::ShiftLeftArithmetic { register } => self.modify(
                UnaryOp::ShiftLeftArithmetic,
                Target::Register { register },
                2,
                cpu_bus,
            ),
            Instruction::ShiftHLLeftArithmetic => self.modify(
                UnaryOp::ShiftLeftArithmetic,
                Target::Indirect,
                2,
                cpu_bus,
            ),
            Instruction::Swap { register } => self.modify(
                UnaryOp::Swap,
                Target::Register { register },
                2,
                cpu_bus,
            ),
            Instruction::SwapHL => self.modify(UnaryOp::Swap, Target::Indirect, 2, cpu_bus),
            Instruction::ShiftRightArithmetic { register } => self.modify(
                UnaryOp::ShiftRightArithmetic,
                Target::Register { register },
                2,
                cpu_bus,
            ),
            Instruction::ShiftHLRightArithmetic => self.modify(
                UnaryOp::ShiftRightArithmetic,
                Target::Indirect,
                2,
                cpu_bus,
            ),
            Instruction::ShiftRightLogical { register } => self.modify(
                UnaryOp::ShiftRightLogical,
                Target::Register { register },
                2,
                cpu_bus,
            ),
            Instruction::ShiftHLRightLogical => self.modify(
                UnaryOp::ShiftRightLogical,
                Target::Indirect,
                2,
                cpu_bus,
            ),
            _ => {},
        }
    }

    /// The operations on a single bit.
    fn run_bit(&mut self, instruction: Instruction, cpu_bus: &mut impl CpuBus)
        requires
            instruction.class() == InstructionClass::Bit,
        ensures
            final(self).on(*final(cpu_bus)) == old(self).on(*old(cpu_bus)).run(instruction),
    {
        match instruction {
            Instruction::TestBit { bit, register } => self.test(
                bit,
                Source::Register { register },
                cpu_bus,
            ),
            Instruction::TestHLBit { bit } => self.test(bit, Source::Indirect, cpu_bus),
            Instruction::SetBit { bit, register } => self.modify(
                UnaryOp::SetBit { bit },
                Target::Register { register },
                2,
                cpu_bus,
            ),
            Instruction::SetHLBit { bit } => self.modify(
                UnaryOp::SetBit { bit },
                Target::Indirect,
                2,
                cpu_bus,
            ),
            Instruction::ResetBit { bit, register } => self.modify(
                UnaryOp::ResetBit { bit },
                Target::Register { register },
                2,
                cpu_bus,
            ),
            Instruction::ResetHLBit { bit } => self.modify(
                UnaryOp::ResetBit { bit },
                Target::Indirect,
                2,
                cpu_bus,
            ),
            _ => {},
        }
    }

    /// The instructions that control the processor or its flags.
    fn run_control(&mut self, instruction: Instruction, cpu_bus: &mut impl CpuBus)
        requires
            instruction.class() == InstructionClass::Control,
        ensures
            final(self).on(*final(cpu_bus)) == old(self).on(*old(cpu_bus)).run(instruction),
    {
        match instruction {
            Instruction::FlipCarryFlag => {
                self.is_subtraction = false;
                self.is_half_carry = false;
                self.is_carry = !self.is_carry;
                self.advance(1);
            },
            Instruction::SetCarryFlag => {
                self.is_subtraction = false;
                self.is_half_carry = false;
                self.is_carry = true;
                self.advance(1);
            },
            Instruction::Nop => {
                self.advance(1);
            },
            Instruction::Halt => {
                self.halt = true;
            },
            Instruction::Stop => {
                self.halt = true;
            },
            Instruction::DisableInterrupts => {
                self.interrupts_enabled = false;
                self.advance(1);
            },
            Instruction::EnableInterrupts => {
                self.interrupts_enabled = true;
                self.advance(1);
            },
            _ => {},
        }
    }

    /// Jumps, calls, returns and restarts.
    fn run_jump(&mut self, instruction: Instruction, cpu_bus: &mut impl CpuBus)
        requires
            instruction.class() == InstructionClass::Jump,
        ensures
            final(self).on(*final(cpu_bus)) == old(self).on(*old(cpu_bus)).run(instruction),
    {
        match instruction {
            Instruction::Jump => self.jump_absolute(true, cpu_bus),
            Instruction::JumpHL => {
                self.program_counter = self.hl();
            },
            Instruction::JumpConditional { flag } => self.jump_absolute(
                self.test_condition(flag),
                cpu_bus,
            ),
            Instruction::JumpRelative => self.jump_relative(true, cpu_bus),
            Instruction::JumpRelativeConditional { flag } => self.jump_relative(
                self.test_condition(flag),
                cpu_bus,
            ),
            Instruction::Call => self.call_absolute(true, cpu_bus),
            Instruction::CallConditional { flag } => self.call_absolute(
                self.test_condition(flag),
                cpu_bus,
            ),
            Instruction::Return => self.return_from_call(cpu_bus),
            Instruction::ReturnConditional { flag } => {
                if self.test_condition(flag) {
                    self.return_from_call(cpu_bus);
                } else {
                    self.advance(1);
                }
            },
            Instruction::ReturnAndEnableInterrupts => {
                self.interrupts_enabled = true;
                self.return_from_call(cpu_bus);
            },
            Instruction::Reset0 { location } => self.restart(location, false, cpu_bus),
            Instruction::Reset8 { location } => self.restart(location, true, cpu_bus),
            _ => {},
        }
    }

    /// Carries out the body of one instruction, by its class.
    fn run(&mut self, instruction: Instruction, cpu_bus: &mut impl CpuBus)
        ensures
            final(self).on(*final(cpu_bus)) == old(self).on(*old(cpu_bus)).run(instruction),
    {
        match instruction.classify() {
            InstructionClass::Invalid => {},
            InstructionClass::Load8 => self.run_load8(instruction, cpu_bus),
            InstructionClass::Load16 => self.run_load16(instruction, cpu_bus),
            InstructionClass::Arithmetic8 => self.run_arithmetic8(instruction, cpu_bus),
            InstructionClass::Adjust8 => self.run_adjust8(instruction, cpu_bus),
            InstructionClass::Arithmetic16 => self.run_arithmetic16(instruction, cpu_bus),
            InstructionClass::Rotate => self.run_rotate(instruction, cpu_bus),
            InstructionClass::Bit => self.run_bit(instruction, cpu_bus),
            InstructionClass::Control => self.run_control(instruction, cpu_bus),
            InstructionClass::Jump => self.run_jump(instruction, cpu_bus),
        }
    }

    /// Carries out one instruction and the interrupt step that follows it.
    /// The register file and the bus are left as one whole step of the
    /// processor leaves them.
    pub fn execute(&mut self, instruction: Instruction, cpu_bus: &mut impl CpuBus)
        requires
            instruction.executable(),
        ensures
            final(self).on(*final(cpu_bus)) == old(self).on(*old(cpu_bus)).executed(instruction),
    {
        self.run(instruction, cpu_bus);
        self.check_interrupts(instruction, cpu_bus);
    }
}

} // verus!
