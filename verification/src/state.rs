use vstd::prelude::*;
use crate::cpu::{AluOp, Cpu, CpuBus, UnaryOp};
use crate::instructions::{DoubleRegister, Instruction, Register};
use crate::util::{sign_extended, word};

verus! {

/// The processor together with the bus it runs against: what an instruction
/// is a step of.
pub struct State<B> {
    pub cpu: Cpu,
    pub bus: B,
}

/// Where an instruction takes a byte from: a register, the byte at (HL), or
/// the byte behind the opcode.
#[derive(Debug, Clone, Copy, PartialEq, Eq, Structural)]
pub enum Source {
    Register { register: Register },
    Indirect,
    Immediate,
}

/// Where an instruction puts a byte: a register or the byte at (HL).
#[derive(Debug, Clone, Copy, PartialEq, Eq, Structural)]
pub enum Target {
    Register { register: Register },
    Indirect,
}

impl Target {
    /// The place as one to read from.
    pub open spec fn source(self) -> Source {
        match self {
            Target::Register { register } => Source::Register { register },
            Target::Indirect => Source::Indirect,
        }
    }
}

impl Source {
    /// The length of an instruction that takes a byte from here, its
    /// opcode counted: 2 with an immediate byte, 1 without.
    pub open spec fn length(self) -> u16 {
        if self == Source::Immediate {
            2
        } else {
            1
        }
    }
}

/// The address in the last page of the address space, where the I/O
/// registers are, that `offset` names.
pub open spec fn high_page(offset: u8) -> u16 {
    (0xFF00 + offset) as u16
}

/// The address that the restart instruction of the given table row and
/// column jumps to: 0x00, 0x10, 0x20 or 0x30, and 8 more in the second
/// column.
pub open spec fn restart_vector(location: u8, second: bool) -> u16 {
    ((location % 4) * 0x10 + if second {
        8int
    } else {
        0int
    }) as u16
}

impl Cpu {
    /// The register file paired with a bus.
    pub open spec fn on<B>(self, bus: B) -> State<B> {
        State { cpu: self, bus }
    }

    /// The address `index` bytes behind the program counter.
    pub open spec fn operand_address(self, index: u16) -> u16 {
        self.program_counter.wrapping_add(index)
    }
}

impl<B: CpuBus> State<B> {
    /// The state after a read of `address`.
    pub open spec fn read(self, address: u16) -> State<B> {
        State { bus: self.bus.after_read(address), ..self }
    }

    /// The state after `value` was written to `address`.
    pub open spec fn write(self, address: u16, value: u8) -> State<B> {
        State { bus: self.bus.after_write(address, value), ..self }
    }

    /// The state with the program counter moved on by `length`.
    pub open spec fn advanced(self, length: u16) -> State<B> {
        State { cpu: self.cpu.advanced(length), ..self }
    }

    /// The state with the program counter at `address`.
    pub open spec fn jumped(self, address: u16) -> State<B> {
        State { cpu: Cpu { program_counter: address, ..self.cpu }, ..self }
    }

    /// The immediate byte behind the opcode.
    pub open spec fn operand8(self) -> u8 {
        self.bus.peek(self.cpu.operand_address(1))
    }

    /// The state after the immediate byte was read.
    pub open spec fn after_operand8(self) -> State<B> {
        self.read(self.cpu.operand_address(1))
    }

    /// The immediate word behind the opcode, low byte first.
    pub open spec fn operand16(self) -> u16 {
        word(self.after_operand8().bus.peek(self.cpu.operand_address(2)), self.operand8())
    }

    /// The state after the immediate word was read.
    pub open spec fn after_operand16(self) -> State<B> {
        self.after_operand8().read(self.cpu.operand_address(2))
    }

    /// The byte that `source` yields.
    pub open spec fn value(self, source: Source) -> u8 {
        match source {
            Source::Register { register } => self.cpu.register(register),
            Source::Indirect => self.bus.peek(self.cpu.pair(DoubleRegister::HL)),
            Source::Immediate => self.operand8(),
        }
    }

    /// The state after the byte of `source` was taken: a register costs no
    /// bus access, the other two cost a read.
    pub open spec fn fetched(self, source: Source) -> State<B> {
        match source {
            Source::Register { register } => self,
            Source::Indirect => self.read(self.cpu.pair(DoubleRegister::HL)),
            Source::Immediate => self.after_operand8(),
        }
    }

    /// The state after `value` was put into `target`.
    pub open spec fn stored(self, target: Target, value: u8) -> State<B> {
        match target {
            Target::Register { register } => State {
                cpu: self.cpu.with_register(register, value),
                ..self
            },
            Target::Indirect => self.write(self.cpu.pair(DoubleRegister::HL), value),
        }
    }

    /// An 8-bit load from `source` into `target`.
    pub open spec fn load(self, target: Target, source: Source) -> State<B> {
        self.fetched(source).stored(target, self.value(source)).advanced(source.length())
    }

    /// The accumulator is loaded from `address`.
    pub open spec fn accumulator_loaded(self, address: u16) -> State<B> {
        State { cpu: Cpu { a: self.bus.peek(address), ..self.cpu }, ..self.read(address) }
    }

    /// The accumulator is stored at `address`.
    pub open spec fn accumulator_stored(self, address: u16) -> State<B> {
        self.write(address, self.cpu.a)
    }

    /// HL moves by one: on if `up`, back otherwise.
    pub open spec fn hl_moved(self, up: bool) -> State<B> {
        let hl = self.cpu.pair(DoubleRegister::HL);
        State {
            cpu: self.cpu.with_pair(
                DoubleRegister::HL,
                if up {
                    hl.wrapping_add(1)
                } else {
                    hl.wrapping_sub(1)
                },
            ),
            ..self
        }
    }

    /// An operation of the arithmetic unit on the accumulator and the byte
    /// of `source`.
    pub open spec fn arithmetic(self, op: AluOp, source: Source) -> State<B> {
        State {
            cpu: self.cpu.alu(op, self.value(source)),
            ..self.fetched(source)
        }.advanced(source.length())
    }

    /// An operation on the byte in `target`: the byte is read, the flags
    /// are set, the result is written back, and the program counter moves on
    /// by `length`.
    pub open spec fn modify(self, op: UnaryOp, target: Target, length: u16) -> State<B> {
        let value = self.value(target.source());
        State {
            cpu: self.cpu.unary_flags(op, value),
            ..self.fetched(target.source())
        }.stored(target, self.cpu.unary_result(op, value)).advanced(length)
    }

    /// Bit `bit` of the byte of `source` is tested.
    pub open spec fn test(self, bit: u8, source: Source) -> State<B> {
        State {
            cpu: self.cpu.bit_tested(bit, self.value(source)),
            ..self.fetched(source)
        }.advanced(2)
    }

    /// `value` is pushed: the stack pointer goes down by 2, the low byte is
    /// stored at the new stack pointer and the high byte one above it.
    pub open spec fn pushed(self, value: u16) -> State<B> {
        let pointer = self.cpu.stack_pointer.wrapping_sub(2);
        State {
            cpu: Cpu { stack_pointer: pointer, ..self.cpu },
            bus: self.bus.after_write(pointer, (value % 256) as u8).after_write(
                pointer.wrapping_add(1),
                (value / 256) as u8,
            ),
        }
    }

    /// The word on top of the stack: the low byte at the stack pointer, the
    /// high byte one above it.
    pub open spec fn top_of_stack(self) -> u16 {
        word(
            self.bus.after_read(self.cpu.stack_pointer).peek(
                self.cpu.stack_pointer.wrapping_add(1),
            ),
            self.bus.peek(self.cpu.stack_pointer),
        )
    }

    /// The word on top of the stack is taken off: both bytes are read and
    /// the stack pointer goes up by 2.
    pub open spec fn popped(self) -> State<B> {
        State {
            cpu: Cpu { stack_pointer: self.cpu.stack_pointer.wrapping_add(2), ..self.cpu },
            bus: self.bus.after_read(self.cpu.stack_pointer).after_read(
                self.cpu.stack_pointer.wrapping_add(1),
            ),
        }
    }

    /// A call: the program counter is pushed and set to `address`.
    pub open spec fn called(self, address: u16) -> State<B> {
        self.pushed(self.cpu.program_counter).jumped(address)
    }

    /// A return: the program counter is popped.
    pub open spec fn returned(self) -> State<B> {
        self.popped().jumped(self.top_of_stack())
    }

    /// The state with `value` in a register pair.
    pub open spec fn with_pair(self, register: DoubleRegister, value: u16) -> State<B> {
        State { cpu: self.cpu.with_pair(register, value), ..self }
    }

    /// The state with the register file replaced.
    pub open spec fn with_cpu(self, cpu: Cpu) -> State<B> {
        State { cpu, ..self }
    }

    /// A jump by the signed immediate byte, counted from the instruction
    /// that follows; taken only if `taken`.
    pub open spec fn jumped_relative(self, taken: bool) -> State<B> {
        let next = self.after_operand8().advanced(2);
        if taken {
            next.jumped(next.cpu.program_counter.wrapping_add(sign_extended(self.operand8())))
        } else {
            next
        }
    }

    /// A jump to the immediate word; taken only if `taken`.
    pub open spec fn jumped_absolute(self, taken: bool) -> State<B> {
        if taken {
            self.after_operand16().jumped(self.operand16())
        } else {
            self.after_operand16().advanced(3)
        }
    }

    /// A call of the immediate word, with the address of the following
    /// instruction as the return address; taken only if `taken`.
    pub open spec fn called_absolute(self, taken: bool) -> State<B> {
        if taken {
            self.after_operand16().advanced(3).called(self.operand16())
        } else {
            self.after_operand16().advanced(3)
        }
    }

    /// The state after the body of `instruction`, the interrupt step that
    /// follows every instruction left aside. Every instruction but a taken
    /// jump, call or return, HALT and STOP moves the program counter on by
    /// its length.
    pub open spec fn run(self, instruction: Instruction) -> State<B> {
        let cpu = self.cpu;
        match instruction {
            Instruction::Invalid => self,
            Instruction::LoadReg { dst, src } => self.load(
                Target::Register { register: dst },
                Source::Register { register: src },
            ),
            Instruction::LoadReg8 { register } => self.load(
                Target::Register { register },
                Source::Immediate,
            ),
            Instruction::LoadRegHL { register } => self.load(
                Target::Register { register },
                Source::Indirect,
            ),
            Instruction::LoadHLReg { register } => self.load(
                Target::Indirect,
                Source::Register { register },
            ),
            Instruction::LoadHL8 => self.load(Target::Indirect, Source::Immediate),
            Instruction::LoadABC => self.accumulator_loaded(cpu.pair(DoubleRegister::BC)).advanced(
                1,
            ),
            Instruction::LoadADE => self.accumulator_loaded(cpu.pair(DoubleRegister::DE)).advanced(
                1,
            ),
            Instruction::LoadAAddress => self.after_operand16().accumulator_loaded(
                self.operand16(),
            ).advanced(3),
            Instruction::LoadBCA => self.accumulator_stored(cpu.pair(DoubleRegister::BC)).advanced(
                1,
            ),
            Instruction::LoadDEA => self.accumulator_stored(cpu.pair(DoubleRegister::DE)).advanced(
                1,
            ),
            Instruction::LoadAddressA => self.after_operand16().accumulator_stored(
                self.operand16(),
            ).advanced(3),
            Instruction::LoadAOffset => self.after_operand8().accumulator_loaded(
                high_page(self.operand8()),
            ).advanced(2),
            Instruction::LoadOffsetA => self.after_operand8().accumulator_stored(
                high_page(self.operand8()),
            ).advanced(2),
            Instruction::LoadAOffsetC => self.accumulator_loaded(high_page(cpu.c)).advanced(1),
            Instruction::LoadOffsetCA => self.accumulator_stored(high_page(cpu.c)).advanced(1),
            Instruction::LoadIncrementHLA => self.accumulator_stored(
                cpu.pair(DoubleRegister::HL),
            ).hl_moved(true).advanced(1),
            Instruction::LoadIncrementAHL => self.accumulator_loaded(
                cpu.pair(DoubleRegister::HL),
            ).hl_moved(true).advanced(1),
            Instruction::LoadDecrementHLA => self.accumulator_stored(
                cpu.pair(DoubleRegister::HL),
            ).hl_moved(false).advanced(1),
            Instruction::LoadDecrementAHL => self.accumulator_loaded(
                cpu.pair(DoubleRegister::HL),
            ).hl_moved(false).advanced(1),
            Instruction::LoadReg16 { register } => self.after_operand16().with_pair(
                register,
                self.operand16(),
            ).advanced(3),
            Instruction::LoadAddressSP => self.after_operand16().write(
                self.operand16(),
                (cpu.stack_pointer % 256) as u8,
            ).write(self.operand16().wrapping_add(1), (cpu.stack_pointer / 256) as u8).advanced(3),
            Instruction::LoadSPHL => self.with_pair(
                DoubleRegister::SP,
                cpu.pair(DoubleRegister::HL),
            ).advanced(1),
            Instruction::PushReg { register } => self.pushed(cpu.pair(register)).advanced(1),
            Instruction::PopReg { register } => self.popped().with_pair(
                register,
                self.top_of_stack(),
            ).advanced(1),
            Instruction::AddAReg { register } => self.arithmetic(
                AluOp::Add,
                Source::Register { register },
            ),
            Instruction::AddA => self.arithmetic(AluOp::Add, Source::Immediate),
            Instruction::AddAHL => self.arithmetic(AluOp::Add, Source::Indirect),
            Instruction::AddCarryAReg { register } => self.arithmetic(
                AluOp::AddCarry,
                Source::Register { register },
            ),
            Instruction::AddCarryA => self.arithmetic(AluOp::AddCarry, Source::Immediate),
            Instruction::AddCarryAHL => self.arithmetic(AluOp::AddCarry, Source::Indirect),
            Instruction::SubtractAReg { register } => self.arithmetic(
                AluOp::Subtract,
                Source::Register { register },
            ),
            Instruction::SubtractA => self.arithmetic(AluOp::Subtract, Source::Immediate),
            Instruction::SubtractAHL => self.arithmetic(AluOp::Subtract, Source::Indirect),
            Instruction::SubtractARegCarry { register } => self.arithmetic(
                AluOp::SubtractCarry,
                Source::Register { register },
            ),
            Instruction::SubtractACarry => self.arithmetic(AluOp::SubtractCarry, Source::Immediate),
            Instruction::SubtractAHLCarry => self.arithmetic(
                AluOp::SubtractCarry,
                Source::Indirect,
            ),
            Instruction::AndAReg { register } => self.arithmetic(
                AluOp::And,
                Source::Register { register },
            ),
            Instruction::AndA => self.arithmetic(AluOp::And, Source::Immediate),
            Instruction::AndAHL => self.arithmetic(AluOp::And, Source::Indirect),
            Instruction::XorAReg { register } => self.arithmetic(
                AluOp::Xor,
                Source::Register { register },
            ),
            Instruction::XorA => self.arithmetic(AluOp::Xor, Source::Immediate),
            Instruction::XorAHL => self.arithmetic(AluOp::Xor, Source::Indirect),
            Instruction::OrAReg { register } => self.arithmetic(
                AluOp::Or,
                Source::Register { register },
            ),
            Instruction::OrA => self.arithmetic(AluOp::Or, Source::Immediate),
            Instruction::OrAHL => self.arithmetic(AluOp::Or, Source::Indirect),
            Instruction::CompareAReg { register } => self.arithmetic(
                AluOp::Compare,
                Source::Register { register },
            ),
            Instruction::CompareA => self.arithmetic(AluOp::Compare, Source::Immediate),
            Instruction::CompareAHL => self.arithmetic(AluOp::Compare, Source::Indirect),
            Instruction::IncrementReg { register } => self.modify(
                UnaryOp::Increment,
                Target::Register { register },
                1,
            ),
            Instruction::IncrementHL => self.modify(UnaryOp::Increment, Target::Indirect, 1),
            Instruction::DecrementReg { register } => self.modify(
                UnaryOp::Decrement,
                Target::Register { register },
                1,
            ),
            Instruction::DecrementHL => self.modify(UnaryOp::Decrement, Target::Indirect, 1),
            Instruction::DecimalAdjustA => self.with_cpu(cpu.decimal_adjusted()).advanced(1),
            Instruction::Complement => self.with_cpu(
                Cpu { a: cpu.a ^ 0xFF, is_subtraction: true, is_half_carry: true, ..cpu },
            ).advanced(1),
            Instruction::AddHLReg { register } => self.with_cpu(
                cpu.hl_added(cpu.pair(register)),
            ).advanced(1),
            Instruction::IncrementReg16 { register } => self.with_pair(
                register,
                cpu.pair(register).wrapping_add(1),
            ).advanced(1),
            Instruction::DecrementReg16 { register } => self.with_pair(
                register,
                cpu.pair(register).wrapping_sub(1),
            ).advanced(1),
            Instruction::AddSPOffset => self.after_operand8().with_cpu(
                cpu.offset_flags(self.operand8()),
            ).with_pair(
                DoubleRegister::SP,
                cpu.stack_pointer.wrapping_add(sign_extended(self.operand8())),
            ).advanced(2),
            Instruction::LoadHLSPOffset => self.after_operand8().with_cpu(
                cpu.offset_flags(self.operand8()),
            ).with_pair(
                DoubleRegister::HL,
                cpu.stack_pointer.wrapping_add(sign_extended(self.operand8())),
            ).advanced(2),
            Instruction::RotateALeft => self.with_cpu(
                cpu.accumulator_rotated(UnaryOp::RotateLeft),
            ).advanced(1),
            Instruction::RotateALeftThroughCarry => self.with_cpu(
                cpu.accumulator_rotated(UnaryOp::RotateLeftThroughCarry),
            ).advanced(1),
            Instruction::RotateARight => self.with_cpu(
                cpu.accumulator_rotated(UnaryOp::RotateRight),
            ).advanced(1),
            Instruction::RotateARightThroughCarry => self.with_cpu(
                cpu.accumulator_rotated(UnaryOp::RotateRightThroughCarry),
            ).advanced(1),
            Instruction::RotateLeft { register } => self.modify(
                UnaryOp::RotateLeft,
                Target::Register { register },
                2,
            ),
            Instruction::RotateHLLeft => self.modify(UnaryOp::RotateLeft, Target::Indirect, 2),
            Instruction::RotateLeftThroughCarry { register } => self.modify(
                UnaryOp::RotateLeftThroughCarry,
                Target::Register { register },
                2,
            ),
            Instruction::RotateHLLeftThroughCarry => self.modify(
                UnaryOp::RotateLeftThroughCarry,
                Target::Indirect,
                2,
            ),
            Instruction::RotateRight { register } => self.modify(
                UnaryOp::RotateRight,
                Target::Register { register },
                2,
            ),
            Instruction::RotateHLRight => self.modify(UnaryOp::RotateRight, Target::Indirect, 2),
            Instruction::RotateRightThroughCarry { register } => self.modify(
                UnaryOp::RotateRightThroughCarry,
                Target::Register { register },
                2,
            ),
            Instruction::RotateHLRightThroughCarry => self.modify(
                UnaryOp::RotateRightThroughCarry,
                Target::Indirect,
                2,
            ),
            Instruction::ShiftLeftArithmetic { register } => self.modify(
                UnaryOp::ShiftLeftArithmetic,
                Target::Register { register },
                2,
            ),
            Instruction::ShiftHLLeftArithmetic => self.modify(
                UnaryOp::ShiftLeftArithmetic,
                Target::Indirect,
                2,
            ),
            Instruction::Swap { register } => self.modify(
                UnaryOp::Swap,
                Target::Register { register },
                2,
            ),
            Instruction::SwapHL => self.modify(UnaryOp::Swap, Target::Indirect, 2),
            Instruction::ShiftRightArithmetic { register } => self.modify(
                UnaryOp::ShiftRightArithmetic,
                Target::Register { register },
                2,
            ),
            Instruction::ShiftHLRightArithmetic => self.modify(
                UnaryOp::ShiftRightArithmetic,
                Target::Indirect,
                2,
            ),
            Instruction::ShiftRightLogical { register } => self.modify(
                UnaryOp::ShiftRightLogical,
                Target::Register { register },
                2,
            ),
            Instruction::ShiftHLRightLogical => self.modify(
                UnaryOp::ShiftRightLogical,
                Target::Indirect,
                2,
            ),
            Instruction::TestBit { bit, register } => self.test(bit, Source::Register { register }),
            Instruction::TestHLBit { bit } => self.test(bit, Source::Indirect),
            Instruction::SetBit { bit, register } => self.modify(
                UnaryOp::SetBit { bit },
                Target::Register { register },
                2,
            ),
            Instruction::SetHLBit { bit } => self.modify(
                UnaryOp::SetBit { bit },
                Target::Indirect,
                2,
            ),
            Instruction::ResetBit { bit, register } => self.modify(
                UnaryOp::ResetBit { bit },
                Target::Register { register },
                2,
            ),
            Instruction::ResetHLBit { bit } => self.modify(
                UnaryOp::ResetBit { bit },
                Target::Indirect,
                2,
            ),
            Instruction::FlipCarryFlag => self.with_cpu(
                Cpu {
                    is_subtraction: false,
                    is_half_carry: false,
                    is_carry: !cpu.is_carry,
                    ..cpu
                },
            ).advanced(1),
            Instruction::SetCarryFlag => self.with_cpu(
                Cpu { is_subtraction: false, is_half_carry: false, is_carry: true, ..cpu },
            ).advanced(1),
            Instruction::Nop => self.advanced(1),
            Instruction::Halt => self.with_cpu(Cpu { halt: true, ..cpu }),
            Instruction::Stop => self.with_cpu(Cpu { halt: true, ..cpu }),
            Instruction::DisableInterrupts => self.with_cpu(
                Cpu { interrupts_enabled: false, ..cpu },
            ).advanced(1),
            Instruction::EnableInterrupts => self.with_cpu(
                Cpu { interrupts_enabled: true, ..cpu },
            ).advanced(1),
            Instruction::Jump => self.jumped_absolute(true),
            Instruction::JumpHL => self.jumped(cpu.pair(DoubleRegister::HL)),
            Instruction::JumpConditional { flag } => self.jumped_absolute(cpu.condition(flag)),
            Instruction::JumpRelative => self.jumped_relative(true),
            Instruction::JumpRelativeConditional { flag } => self.jumped_relative(
                cpu.condition(flag),
            ),
            Instruction::Call => self.called_absolute(true),
            Instruction::CallConditional { flag } => self.called_absolute(cpu.condition(flag)),
            Instruction::Return => self.returned(),
            Instruction::ReturnConditional { flag } => if cpu.condition(flag) {
                self.returned()
            } else {
                self.advanced(1)
            },
            Instruction::ReturnAndEnableInterrupts => self.with_cpu(
                Cpu { interrupts_enabled: true, ..cpu },
            ).returned(),
            Instruction::Reset0 { location } => self.advanced(1).called(
                restart_vector(location, false),
            ),
            Instruction::Reset8 { location } => self.advanced(1).called(
                restart_vector(location, true),
            ),
        }
    }
}

} // verus!
