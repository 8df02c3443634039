use gameboy::alu_result::AluResult;
use gameboy::cpu::{Cpu, CpuBus};
use gameboy::decode::{decode_extended, decode_opcode};
use gameboy::instructions::{
    ConditionalFlag, DoubleRegister, Instruction, InstructionClass, Register,
};

/// Sixty-four KiB of plain memory, with a count of the accesses.
struct Ram {
    cells: Vec<u8>,
    reads: usize,
    writes: usize,
}

impl Ram {
    fn new() -> Ram {
        Ram { cells: vec![0; 0x10000], reads: 0, writes: 0 }
    }

    fn with_code(code: &[u8]) -> Ram {
        let mut ram = Ram::new();
        ram.cells[..code.len()].copy_from_slice(code);
        ram
    }
}

impl CpuBus for Ram {
    fn read(&mut self, address: u16) -> u8 {
        self.reads += 1;
        self.cells[address as usize]
    }

    fn write(&mut self, address: u16, val: u8) {
        self.writes += 1;
        self.cells[address as usize] = val;
    }
}

fn quiet_cpu() -> Cpu {
    let mut cpu = Cpu::new();
    cpu.interrupts_enabled = false;
    cpu
}

fn flags(cpu: &Cpu) -> (bool, bool, bool, bool) {
    (cpu.is_zero, cpu.is_subtraction, cpu.is_half_carry, cpu.is_carry)
}

#[test]
fn test_power_on_registers() {
    let cpu = Cpu::new();
    assert_eq!(cpu.stack_pointer, 0xFFFE);
    assert_eq!(cpu.program_counter, 0);
    assert!(cpu.interrupts_enabled);
    assert!(!cpu.halt);
    assert_eq!(cpu.flags_to_byte(), 0);
    assert_eq!((cpu.bc(), cpu.de(), cpu.hl()), (0, 0, 0));
    assert_eq!(Cpu::default().stack_pointer, 0);
    assert!(!Cpu::default().interrupts_enabled);
}

#[test]
fn test_register_pairs() {
    let mut cpu = quiet_cpu();
    cpu.b = 0x12;
    cpu.c = 0x34;
    cpu.d = 0x56;
    cpu.e = 0x78;
    cpu.h = 0x9A;
    cpu.l = 0xBC;
    cpu.a = 0xDE;
    cpu.is_zero = true;
    cpu.is_carry = true;
    assert_eq!(cpu.bc(), 0x1234);
    assert_eq!(cpu.de(), 0x5678);
    assert_eq!(cpu.hl(), 0x9ABC);
    assert_eq!(cpu.get_pair(DoubleRegister::AF), 0xDE90);
    assert_eq!(cpu.get_pair(DoubleRegister::SP), 0xFFFE);

    cpu.set_pair(DoubleRegister::AF, 0x11FF);
    assert_eq!(cpu.a, 0x11);
    assert_eq!(flags(&cpu), (true, true, true, true));
    assert_eq!(cpu.get_pair(DoubleRegister::AF), 0x11F0);
    cpu.set_pair(DoubleRegister::DE, 0xCAFE);
    assert_eq!((cpu.d, cpu.e), (0xCA, 0xFE));
    cpu.set_register(Register::L, 7);
    assert_eq!(cpu.get_register(Register::L), 7);
    assert_eq!(cpu.hl(), 0x9A07);
}

#[test]
fn test_flag_byte() {
    let mut cpu = quiet_cpu();
    for byte in 0..=255u8 {
        cpu.byte_to_flags(byte);
        assert_eq!(cpu.flags_to_byte(), byte & 0xF0);
        assert_eq!(cpu.is_zero, byte & 0x80 != 0);
        assert_eq!(cpu.is_subtraction, byte & 0x40 != 0);
        assert_eq!(cpu.is_half_carry, byte & 0x20 != 0);
        assert_eq!(cpu.is_carry, byte & 0x10 != 0);
    }
}

#[test]
fn test_decimal_adjust_after_addition() {
    let raw = AluResult::from_add(0x19, 0x28);
    assert_eq!(raw.result, 0x41);
    assert!(raw.half_carry);
    assert!(!raw.carry);

    let mut cpu = quiet_cpu();
    let mut ram = Ram::with_code(&[0xC6, 0x28, 0x27]);
    cpu.a = 0x19;
    cpu.execute(Instruction::AddA, &mut ram);
    assert_eq!(cpu.a, 0x41);
    assert_eq!(flags(&cpu), (false, false, true, false));
    assert_eq!(cpu.program_counter, 2);

    cpu.execute(Instruction::DecimalAdjustA, &mut ram);
    assert_eq!(cpu.a, 0x47);
    assert_eq!(flags(&cpu), (false, false, false, false));
    assert_eq!(cpu.program_counter, 3);
}

#[test]
fn test_decimal_adjust_cases() {
    let mut ram = Ram::new();
    // (a, n, h, c) -> (a, z, c)
    let cases = [
        ((0x0Au8, false, false, false), (0x10u8, false, false)),
        ((0x9A, false, false, false), (0x00, true, true)),
        ((0xA0, false, false, false), (0x00, true, true)),
        ((0x00, false, false, true), (0x60, false, true)),
        ((0x1F, true, true, false), (0x19, false, false)),
        ((0x00, true, false, false), (0x00, true, false)),
        ((0x05, true, true, true), (0x9F, false, true)),
    ];
    for ((a, n, h, c), (result, zero, carry)) in cases {
        let mut cpu = quiet_cpu();
        cpu.a = a;
        cpu.is_subtraction = n;
        cpu.is_half_carry = h;
        cpu.is_carry = c;
        cpu.execute(Instruction::DecimalAdjustA, &mut ram);
        assert_eq!(cpu.a, result);
        assert_eq!(flags(&cpu), (zero, n, false, carry));
    }
}

#[test]
fn test_decimal_subtraction() {
    let mut cpu = quiet_cpu();
    let mut ram = Ram::with_code(&[0xD6, 0x28]);
    cpu.a = 0x47;
    cpu.execute(Instruction::SubtractA, &mut ram);
    assert_eq!(cpu.a, 0x1F);
    assert_eq!(flags(&cpu), (false, true, true, false));
    cpu.execute(Instruction::DecimalAdjustA, &mut ram);
    assert_eq!(cpu.a, 0x19);
    assert_eq!(flags(&cpu), (false, true, false, false));
}

#[test]
fn test_push_then_pop_restores() {
    for register in
        [DoubleRegister::BC, DoubleRegister::DE, DoubleRegister::HL, DoubleRegister::AF]
    {
        let mut cpu = quiet_cpu();
        let mut ram = Ram::new();
        cpu.set_pair(DoubleRegister::BC, 0x1234);
        cpu.set_pair(DoubleRegister::DE, 0x5678);
        cpu.set_pair(DoubleRegister::HL, 0x9ABC);
        cpu.set_pair(DoubleRegister::AF, 0xDEF0);
        cpu.stack_pointer = 0xD000;
        let value = cpu.get_pair(register);

        cpu.execute(Instruction::PushReg { register }, &mut ram);
        assert_eq!(cpu.stack_pointer, 0xCFFE);
        assert_eq!(ram.cells[0xCFFE], value as u8);
        assert_eq!(ram.cells[0xCFFF], (value >> 8) as u8);
        assert_eq!(cpu.program_counter, 1);

        cpu.set_pair(register, 0);
        cpu.execute(Instruction::PopReg { register }, &mut ram);
        assert_eq!(cpu.get_pair(register), value);
        assert_eq!(cpu.stack_pointer, 0xD000);
        assert_eq!(cpu.program_counter, 2);
        assert_eq!(cpu.bc(), 0x1234);
        assert_eq!(cpu.de(), 0x5678);
        assert_eq!(cpu.hl(), 0x9ABC);
        assert_eq!(cpu.get_pair(DoubleRegister::AF), 0xDEF0);
    }
}

#[test]
fn test_pop_af_drops_the_low_nibble() {
    let mut cpu = quiet_cpu();
    let mut ram = Ram::new();
    cpu.stack_pointer = 0xC000;
    ram.cells[0xC000] = 0xFF;
    ram.cells[0xC001] = 0x12;
    cpu.execute(Instruction::PopReg { register: DoubleRegister::AF }, &mut ram);
    assert_eq!(cpu.a, 0x12);
    assert_eq!(cpu.flags_to_byte(), 0xF0);
}

#[test]
fn test_stack_wraps_around() {
    let mut cpu = quiet_cpu();
    let mut ram = Ram::new();
    cpu.stack_pointer = 0x0001;
    cpu.set_pair(DoubleRegister::BC, 0xBEEF);
    cpu.execute(Instruction::PushReg { register: DoubleRegister::BC }, &mut ram);
    assert_eq!(cpu.stack_pointer, 0xFFFF);
    assert_eq!(ram.cells[0xFFFF], 0xEF);
    assert_eq!(ram.cells[0x0000], 0xBE);
    cpu.execute(Instruction::PopReg { register: DoubleRegister::DE }, &mut ram);
    assert_eq!(cpu.de(), 0xBEEF);
    assert_eq!(cpu.stack_pointer, 0x0001);
}

#[test]
fn test_8bit_loads() {
    let mut cpu = quiet_cpu();
    let mut ram = Ram::with_code(&[0x00, 0x42]);
    cpu.set_pair(DoubleRegister::HL, 0xC000);
    ram.cells[0xC000] = 0x99;

    cpu.c = 0x11;
    cpu.execute(Instruction::LoadReg { dst: Register::B, src: Register::C }, &mut ram);
    assert_eq!(cpu.b, 0x11);
    assert_eq!(cpu.program_counter, 1);
    assert_eq!((ram.reads, ram.writes), (0, 0));

    cpu.program_counter = 0;
    cpu.execute(Instruction::LoadReg8 { register: Register::D }, &mut ram);
    assert_eq!(cpu.d, 0x42);
    assert_eq!(cpu.program_counter, 2);

    cpu.execute(Instruction::LoadRegHL { register: Register::E }, &mut ram);
    assert_eq!(cpu.e, 0x99);
    assert_eq!(cpu.program_counter, 3);

    cpu.execute(Instruction::LoadHLReg { register: Register::B }, &mut ram);
    assert_eq!(ram.cells[0xC000], 0x11);
    assert_eq!(cpu.program_counter, 4);

    cpu.program_counter = 0;
    cpu.execute(Instruction::LoadHL8, &mut ram);
    assert_eq!(ram.cells[0xC000], 0x42);
    assert_eq!(cpu.program_counter, 2);
    assert_eq!(flags(&cpu), (false, false, false, false));
}

#[test]
fn test_accumulator_loads() {
    let mut cpu = quiet_cpu();
    let mut ram = Ram::with_code(&[0x00, 0x34, 0x12]);
    ram.cells[0x1234] = 0x77;
    ram.cells[0xFF34] = 0x88;
    ram.cells[0xFF05] = 0x99;

    cpu.execute(Instruction::LoadAAddress, &mut ram);
    assert_eq!(cpu.a, 0x77);
    assert_eq!(cpu.program_counter, 3);

    cpu.program_counter = 0;
    cpu.execute(Instruction::LoadAOffset, &mut ram);
    assert_eq!(cpu.a, 0x88);
    assert_eq!(cpu.program_counter, 2);

    cpu.c = 0x05;
    cpu.execute(Instruction::LoadAOffsetC, &mut ram);
    assert_eq!(cpu.a, 0x99);
    assert_eq!(cpu.program_counter, 3);

    cpu.a = 0x5A;
    cpu.program_counter = 0;
    cpu.execute(Instruction::LoadAddressA, &mut ram);
    assert_eq!(ram.cells[0x1234], 0x5A);
    cpu.program_counter = 0;
    cpu.execute(Instruction::LoadOffsetA, &mut ram);
    assert_eq!(ram.cells[0xFF34], 0x5A);
    cpu.execute(Instruction::LoadOffsetCA, &mut ram);
    assert_eq!(ram.cells[0xFF05], 0x5A);

    cpu.set_pair(DoubleRegister::BC, 0xC100);
    cpu.set_pair(DoubleRegister::DE, 0xC200);
    cpu.execute(Instruction::LoadBCA, &mut ram);
    cpu.a = 0x6B;
    cpu.execute(Instruction::LoadDEA, &mut ram);
    assert_eq!(ram.cells[0xC100], 0x5A);
    assert_eq!(ram.cells[0xC200], 0x6B);
    cpu.execute(Instruction::LoadABC, &mut ram);
    assert_eq!(cpu.a, 0x5A);
    cpu.execute(Instruction::LoadADE, &mut ram);
    assert_eq!(cpu.a, 0x6B);
}

#[test]
fn test_loads_that_move_hl() {
    let mut cpu = quiet_cpu();
    let mut ram = Ram::new();
    cpu.set_pair(DoubleRegister::HL, 0xFFFF);
    cpu.a = 0x11;
    cpu.execute(Instruction::LoadIncrementHLA, &mut ram);
    assert_eq!(ram.cells[0xFFFF], 0x11);
    assert_eq!(cpu.hl(), 0x0000);

    ram.cells[0x0000] = 0x22;
    cpu.execute(Instruction::LoadDecrementAHL, &mut ram);
    assert_eq!(cpu.a, 0x22);
    assert_eq!(cpu.hl(), 0xFFFF);

    cpu.execute(Instruction::LoadDecrementHLA, &mut ram);
    assert_eq!(ram.cells[0xFFFF], 0x22);
    assert_eq!(cpu.hl(), 0xFFFE);

    ram.cells[0xFFFE] = 0x33;
    cpu.execute(Instruction::LoadIncrementAHL, &mut ram);
    assert_eq!(cpu.a, 0x33);
    assert_eq!(cpu.hl(), 0xFFFF);
    assert_eq!(cpu.program_counter, 4);
}

#[test]
fn test_16bit_loads() {
    let mut cpu = quiet_cpu();
    let mut ram = Ram::with_code(&[0x00, 0x34, 0xC2]);
    cpu.execute(Instruction::LoadReg16 { register: DoubleRegister::SP }, &mut ram);
    assert_eq!(cpu.stack_pointer, 0xC234);
    assert_eq!(cpu.program_counter, 3);

    cpu.program_counter = 0;
    cpu.execute(Instruction::LoadReg16 { register: DoubleRegister::DE }, &mut ram);
    assert_eq!(cpu.de(), 0xC234);

    cpu.program_counter = 0;
    cpu.stack_pointer = 0xABCD;
    cpu.execute(Instruction::LoadAddressSP, &mut ram);
    assert_eq!(ram.cells[0xC234], 0xCD);
    assert_eq!(ram.cells[0xC235], 0xAB);
    assert_eq!(cpu.program_counter, 3);

    cpu.set_pair(DoubleRegister::HL, 0x8001);
    cpu.execute(Instruction::LoadSPHL, &mut ram);
    assert_eq!(cpu.stack_pointer, 0x8001);
    assert_eq!(cpu.program_counter, 4);
}

#[test]
fn test_arithmetic_on_the_accumulator() {
    let mut ram = Ram::with_code(&[0x00, 0x0F]);
    ram.cells[0xC000] = 0x01;
    // (instruction, a, carry in) -> (a, z, n, h, c)
    let cases = [
        (Instruction::AddA, 0x01u8, true, (0x10u8, false, false, true, false)),
        (Instruction::AddCarryA, 0xF0, true, (0x00, true, false, true, true)),
        (Instruction::AddAHL, 0xFF, false, (0x00, true, false, true, true)),
        (Instruction::SubtractA, 0x10, true, (0x01, false, true, true, false)),
        (Instruction::SubtractACarry, 0x10, true, (0x00, true, true, true, false)),
        (Instruction::SubtractAHL, 0x00, false, (0xFF, false, true, true, true)),
        (Instruction::AndA, 0xF1, true, (0x01, false, false, true, false)),
        (Instruction::AndAHL, 0xF0, true, (0x00, true, false, true, false)),
        (Instruction::XorA, 0x0F, true, (0x00, true, false, false, false)),
        (Instruction::OrA, 0xF0, true, (0xFF, false, false, false, false)),
        (Instruction::OrAHL, 0x00, false, (0x01, false, false, false, false)),
        (Instruction::CompareA, 0x0F, false, (0x0F, true, true, false, false)),
        (Instruction::CompareAHL, 0x00, false, (0x00, false, true, true, true)),
    ];
    for (instruction, a, carry, (result, z, n, h, c)) in cases {
        let mut cpu = quiet_cpu();
        cpu.a = a;
        cpu.is_carry = carry;
        cpu.set_pair(DoubleRegister::HL, 0xC000);
        cpu.execute(instruction, &mut ram);
        assert_eq!(cpu.a, result, "{:?}", instruction);
        assert_eq!(flags(&cpu), (z, n, h, c), "{:?}", instruction);
    }

    let mut cpu = quiet_cpu();
    cpu.a = 0x3C;
    cpu.b = 0x12;
    cpu.execute(Instruction::AddAReg { register: Register::B }, &mut ram);
    assert_eq!(cpu.a, 0x4E);
    cpu.execute(Instruction::SubtractAReg { register: Register::A }, &mut ram);
    assert_eq!(cpu.a, 0x00);
    assert_eq!(flags(&cpu), (true, true, false, false));
    cpu.execute(Instruction::CompareAReg { register: Register::B }, &mut ram);
    assert_eq!(cpu.a, 0x00);
    assert_eq!(flags(&cpu), (false, true, true, true));
    cpu.execute(Instruction::AddCarryAReg { register: Register::B }, &mut ram);
    assert_eq!(cpu.a, 0x13);
    cpu.execute(Instruction::XorAReg { register: Register::A }, &mut ram);
    assert_eq!(cpu.a, 0x00);
    assert_eq!(cpu.program_counter, 5);
    assert_eq!(ram.reads, 13);
}

#[test]
fn test_increment_and_decrement_keep_the_carry() {
    let mut ram = Ram::new();
    let mut cpu = quiet_cpu();
    cpu.is_carry = true;
    cpu.a = 0xFF;
    cpu.execute(Instruction::IncrementReg { register: Register::A }, &mut ram);
    assert_eq!(cpu.a, 0x00);
    assert_eq!(flags(&cpu), (true, false, true, true));

    cpu.execute(Instruction::DecrementReg { register: Register::A }, &mut ram);
    assert_eq!(cpu.a, 0xFF);
    assert_eq!(flags(&cpu), (false, true, true, true));

    cpu.is_carry = false;
    cpu.b = 0x0F;
    cpu.execute(Instruction::IncrementReg { register: Register::B }, &mut ram);
    assert_eq!(cpu.b, 0x10);
    assert_eq!(flags(&cpu), (false, false, true, false));
    cpu.b = 0x01;
    cpu.execute(Instruction::DecrementReg { register: Register::B }, &mut ram);
    assert_eq!(cpu.b, 0x00);
    assert_eq!(flags(&cpu), (true, true, false, false));

    cpu.set_pair(DoubleRegister::HL, 0xC000);
    ram.cells[0xC000] = 0x0F;
    cpu.execute(Instruction::IncrementHL, &mut ram);
    assert_eq!(ram.cells[0xC000], 0x10);
    assert_eq!(flags(&cpu), (false, false, true, false));
    cpu.execute(Instruction::DecrementHL, &mut ram);
    assert_eq!(ram.cells[0xC000], 0x0F);
    assert_eq!(flags(&cpu), (false, true, true, false));
    assert_eq!(cpu.program_counter, 6);
}

#[test]
fn test_complement_and_carry_flag() {
    let mut ram = Ram::new();
    let mut cpu = quiet_cpu();
    cpu.a = 0x35;
    cpu.is_zero = true;
    cpu.execute(Instruction::Complement, &mut ram);
    assert_eq!(cpu.a, 0xCA);
    assert_eq!(flags(&cpu), (true, true, true, false));
    cpu.execute(Instruction::SetCarryFlag, &mut ram);
    assert_eq!(flags(&cpu), (true, false, false, true));
    cpu.execute(Instruction::FlipCarryFlag, &mut ram);
    assert_eq!(flags(&cpu), (true, false, false, false));
    cpu.is_subtraction = true;
    cpu.is_half_carry = true;
    cpu.execute(Instruction::FlipCarryFlag, &mut ram);
    assert_eq!(flags(&cpu), (true, false, false, true));
    assert_eq!(cpu.program_counter, 4);
}

#[test]
fn test_16bit_arithmetic() {
    let mut ram = Ram::new();
    let mut cpu = quiet_cpu();
    cpu.is_zero = true;
    cpu.is_subtraction = true;
    cpu.set_pair(DoubleRegister::HL, 0x0FFF);
    cpu.set_pair(DoubleRegister::BC, 0x0001);
    cpu.execute(Instruction::AddHLReg { register: DoubleRegister::BC }, &mut ram);
    assert_eq!(cpu.hl(), 0x1000);
    assert_eq!(flags(&cpu), (true, false, true, false));

    cpu.set_pair(DoubleRegister::HL, 0xFFFF);
    cpu.execute(Instruction::AddHLReg { register: DoubleRegister::BC }, &mut ram);
    assert_eq!(cpu.hl(), 0x0000);
    assert_eq!(flags(&cpu), (true, false, true, true));

    cpu.set_pair(DoubleRegister::HL, 0x8800);
    cpu.execute(Instruction::AddHLReg { register: DoubleRegister::HL }, &mut ram);
    assert_eq!(cpu.hl(), 0x1000);
    assert_eq!(flags(&cpu), (true, false, true, true));

    cpu.stack_pointer = 0x0102;
    cpu.execute(Instruction::AddHLReg { register: DoubleRegister::SP }, &mut ram);
    assert_eq!(cpu.hl(), 0x1102);
    assert_eq!(flags(&cpu), (true, false, false, false));

    cpu.set_pair(DoubleRegister::DE, 0xFFFF);
    cpu.execute(Instruction::IncrementReg16 { register: DoubleRegister::DE }, &mut ram);
    assert_eq!(cpu.de(), 0x0000);
    cpu.execute(Instruction::DecrementReg16 { register: DoubleRegister::DE }, &mut ram);
    assert_eq!(cpu.de(), 0xFFFF);
    cpu.stack_pointer = 0x0000;
    cpu.execute(Instruction::DecrementReg16 { register: DoubleRegister::SP }, &mut ram);
    assert_eq!(cpu.stack_pointer, 0xFFFF);
    cpu.execute(Instruction::IncrementReg16 { register: DoubleRegister::SP }, &mut ram);
    assert_eq!(cpu.stack_pointer, 0x0000);
    // the 16-bit increments touch no flag
    assert_eq!(flags(&cpu), (true, false, false, false));
    assert_eq!(cpu.program_counter, 8);
}

#[test]
fn test_stack_pointer_offsets() {
    let mut cpu = quiet_cpu();
    let mut ram = Ram::with_code(&[0x00, 0x08, 0x00, 0xFE]);
    cpu.is_zero = true;
    cpu.is_subtraction = true;
    cpu.stack_pointer = 0xFFF8;
    cpu.execute(Instruction::AddSPOffset, &mut ram);
    assert_eq!(cpu.stack_pointer, 0x0000);
    assert_eq!(flags(&cpu), (false, false, true, true));
    assert_eq!(cpu.program_counter, 2);

    cpu.stack_pointer = 0x0001;
    cpu.execute(Instruction::AddSPOffset, &mut ram);
    assert_eq!(cpu.stack_pointer, 0xFFFF);
    assert_eq!(flags(&cpu), (false, false, false, false));

    cpu.program_counter = 2;
    cpu.stack_pointer = 0x0102;
    cpu.execute(Instruction::LoadHLSPOffset, &mut ram);
    assert_eq!(cpu.hl(), 0x0100);
    assert_eq!(cpu.stack_pointer, 0x0102);
    assert_eq!(flags(&cpu), (false, false, true, true));
}

#[test]
fn test_accumulator_rotations() {
    let mut ram = Ram::new();
    // (instruction, a, carry in) -> (a, carry out)
    let cases = [
        (Instruction::RotateALeft, 0x80u8, false, (0x01u8, true)),
        (Instruction::RotateALeft, 0x00, true, (0x00, false)),
        (Instruction::RotateALeftThroughCarry, 0x80, false, (0x00, true)),
        (Instruction::RotateALeftThroughCarry, 0x01, true, (0x03, false)),
        (Instruction::RotateARight, 0x01, false, (0x80, true)),
        (Instruction::RotateARightThroughCarry, 0x01, false, (0x00, true)),
        (Instruction::RotateARightThroughCarry, 0x02, true, (0x81, false)),
    ];
    for (instruction, a, carry, (result, carry_out)) in cases {
        let mut cpu = quiet_cpu();
        cpu.a = a;
        cpu.is_carry = carry;
        cpu.is_zero = true;
        cpu.is_subtraction = true;
        cpu.is_half_carry = true;
        cpu.execute(instruction, &mut ram);
        assert_eq!(cpu.a, result, "{:?}", instruction);
        assert_eq!(flags(&cpu), (false, false, false, carry_out), "{:?}", instruction);
        assert_eq!(cpu.program_counter, 1);
    }
}

#[test]
fn test_rotations_and_shifts() {
    let mut ram = Ram::new();
    let register = Register::D;
    // (instruction, value, carry in) -> (value, zero, carry out)
    let cases = [
        (Instruction::RotateLeft { register }, 0x85u8, false, (0x0Bu8, false, true)),
        (Instruction::RotateLeft { register }, 0x00, true, (0x00, true, false)),
        (Instruction::RotateLeftThroughCarry { register }, 0x80, false, (0x00, true, true)),
        (Instruction::RotateLeftThroughCarry { register }, 0x11, true, (0x23, false, false)),
        (Instruction::RotateRight { register }, 0x01, false, (0x80, false, true)),
        (Instruction::RotateRightThroughCarry { register }, 0x01, false, (0x00, true, true)),
        (Instruction::RotateRightThroughCarry { register }, 0x8A, true, (0xC5, false, false)),
        (Instruction::ShiftLeftArithmetic { register }, 0xFF, false, (0xFE, false, true)),
        (Instruction::ShiftLeftArithmetic { register }, 0x80, true, (0x00, true, true)),
        (Instruction::ShiftRightArithmetic { register }, 0x81, false, (0xC0, false, true)),
        (Instruction::ShiftRightArithmetic { register }, 0x01, false, (0x00, true, true)),
        (Instruction::ShiftRightLogical { register }, 0x81, true, (0x40, false, true)),
        (Instruction::ShiftRightLogical { register }, 0x01, false, (0x00, true, true)),
        (Instruction::Swap { register }, 0xF1, true, (0x1F, false, false)),
        (Instruction::Swap { register }, 0x00, true, (0x00, true, false)),
    ];
    for (instruction, value, carry, (result, zero, carry_out)) in cases {
        let mut cpu = quiet_cpu();
        cpu.d = value;
        cpu.is_carry = carry;
        cpu.is_subtraction = true;
        cpu.is_half_carry = true;
        cpu.execute(instruction, &mut ram);
        assert_eq!(cpu.d, result, "{:?}", instruction);
        assert_eq!(flags(&cpu), (zero, false, false, carry_out), "{:?}", instruction);
        assert_eq!(cpu.program_counter, 2);
    }

    let mut cpu = quiet_cpu();
    cpu.set_pair(DoubleRegister::HL, 0xC000);
    ram.cells[0xC000] = 0x81;
    cpu.execute(Instruction::RotateHLLeft, &mut ram);
    assert_eq!(ram.cells[0xC000], 0x03);
    cpu.execute(Instruction::RotateHLRightThroughCarry, &mut ram);
    assert_eq!(ram.cells[0xC000], 0x81);
    cpu.execute(Instruction::SwapHL, &mut ram);
    assert_eq!(ram.cells[0xC000], 0x18);
    cpu.execute(Instruction::ShiftHLLeftArithmetic, &mut ram);
    assert_eq!(ram.cells[0xC000], 0x30);
    cpu.execute(Instruction::ShiftHLRightLogical, &mut ram);
    assert_eq!(ram.cells[0xC000], 0x18);
    cpu.execute(Instruction::ShiftHLRightArithmetic, &mut ram);
    assert_eq!(ram.cells[0xC000], 0x0C);
    cpu.execute(Instruction::RotateHLRight, &mut ram);
    assert_eq!(ram.cells[0xC000], 0x06);
    cpu.execute(Instruction::RotateHLLeftThroughCarry, &mut ram);
    assert_eq!(ram.cells[0xC000], 0x0C);
    assert_eq!(cpu.program_counter, 16);
}

#[test]
fn test_single_bit_operations() {
    let mut ram = Ram::new();
    let mut cpu = quiet_cpu();
    cpu.a = 0x80;
    cpu.is_carry = true;
    cpu.is_subtraction = true;
    cpu.execute(Instruction::TestBit { bit: 7, register: Register::A }, &mut ram);
    assert_eq!(flags(&cpu), (false, false, true, true));
    cpu.execute(Instruction::TestBit { bit: 0, register: Register::A }, &mut ram);
    assert_eq!(flags(&cpu), (true, false, true, true));
    // a position beyond the byte leaves the zero flag alone
    cpu.execute(Instruction::TestBit { bit: 8, register: Register::A }, &mut ram);
    assert_eq!(flags(&cpu), (true, false, true, true));
    assert_eq!(cpu.a, 0x80);

    for bit in 0..8u8 {
        let mut cpu = quiet_cpu();
        cpu.is_zero = true;
        cpu.execute(Instruction::SetBit { bit, register: Register::E }, &mut ram);
        assert_eq!(cpu.e, 1 << bit);
        cpu.e = 0xFF;
        cpu.execute(Instruction::ResetBit { bit, register: Register::E }, &mut ram);
        assert_eq!(cpu.e, !(1u8 << bit));
        assert_eq!(flags(&cpu), (true, false, false, false));
        assert_eq!(cpu.program_counter, 4);
    }

    let mut cpu = quiet_cpu();
    cpu.e = 0x5A;
    cpu.execute(Instruction::SetBit { bit: 9, register: Register::E }, &mut ram);
    cpu.execute(Instruction::ResetBit { bit: 200, register: Register::E }, &mut ram);
    assert_eq!(cpu.e, 0x5A);

    cpu.set_pair(DoubleRegister::HL, 0xC000);
    ram.cells[0xC000] = 0x01;
    cpu.execute(Instruction::TestHLBit { bit: 0 }, &mut ram);
    assert!(!cpu.is_zero);
    cpu.execute(Instruction::TestHLBit { bit: 1 }, &mut ram);
    assert!(cpu.is_zero);
    cpu.execute(Instruction::SetHLBit { bit: 7 }, &mut ram);
    assert_eq!(ram.cells[0xC000], 0x81);
    cpu.execute(Instruction::ResetHLBit { bit: 0 }, &mut ram);
    assert_eq!(ram.cells[0xC000], 0x80);
}

#[test]
fn test_relative_jump_wraps() {
    let mut cpu = quiet_cpu();
    let mut ram = Ram::new();
    cpu.program_counter = 0xFFFE;
    ram.cells[0xFFFF] = 0x02;
    cpu.execute(Instruction::JumpRelative, &mut ram);
    assert_eq!(cpu.program_counter, 0x0002);

    cpu.program_counter = 0x0000;
    ram.cells[0x0001] = 0x80;
    cpu.execute(Instruction::JumpRelative, &mut ram);
    assert_eq!(cpu.program_counter, 0xFF82);

    cpu.program_counter = 0x0000;
    ram.cells[0x0001] = 0xFE;
    cpu.execute(Instruction::JumpRelative, &mut ram);
    assert_eq!(cpu.program_counter, 0x0000);
}

#[test]
fn test_conditions() {
    let mut ram = Ram::with_code(&[0x00, 0x00, 0x20]);
    let cases = [
        (ConditionalFlag::NZ, false, false, true),
        (ConditionalFlag::NZ, true, false, false),
        (ConditionalFlag::Z, true, false, true),
        (ConditionalFlag::Z, false, true, false),
        (ConditionalFlag::NC, true, false, true),
        (ConditionalFlag::NC, false, true, false),
        (ConditionalFlag::C, false, true, true),
        (ConditionalFlag::C, true, false, false),
    ];
    for (flag, zero, carry, taken) in cases {
        let mut cpu = quiet_cpu();
        cpu.is_zero = zero;
        cpu.is_carry = carry;
        assert_eq!(cpu.test_condition(flag), taken);
        cpu.execute(Instruction::JumpConditional { flag }, &mut ram);
        assert_eq!(cpu.program_counter, if taken { 0x2000 } else { 3 });
    }
}

#[test]
fn test_call_and_return() {
    let mut cpu = quiet_cpu();
    let mut ram = Ram::with_code(&[0x00, 0x00, 0x20]);
    cpu.stack_pointer = 0xD000;
    cpu.execute(Instruction::Call, &mut ram);
    assert_eq!(cpu.program_counter, 0x2000);
    assert_eq!(cpu.stack_pointer, 0xCFFE);
    assert_eq!(ram.cells[0xCFFE], 0x03);
    assert_eq!(ram.cells[0xCFFF], 0x00);
    cpu.execute(Instruction::Return, &mut ram);
    assert_eq!(cpu.program_counter, 0x0003);
    assert_eq!(cpu.stack_pointer, 0xD000);
}

#[test]
fn test_restart_vectors() {
    let mut ram = Ram::new();
    for (location, first, second) in
        [(0xCu8, 0x00u16, 0x08u16), (0xD, 0x10, 0x18), (0xE, 0x20, 0x28), (0xF, 0x30, 0x38)]
    {
        let mut cpu = quiet_cpu();
        cpu.program_counter = 0x1234;
        cpu.execute(Instruction::Reset0 { location }, &mut ram);
        assert_eq!(cpu.program_counter, first);
        assert_eq!(ram.cells[0xFFFC], 0x35);
        assert_eq!(ram.cells[0xFFFD], 0x12);
        cpu.execute(Instruction::Reset8 { location }, &mut ram);
        assert_eq!(cpu.program_counter, second);
        assert_eq!(cpu.stack_pointer, 0xFFFA);
    }
}

#[test]
fn test_decode_known_opcodes() {
    let cases = [
        (0x00u8, Instruction::Nop),
        (0x08, Instruction::LoadAddressSP),
        (0x10, Instruction::Stop),
        (0x18, Instruction::JumpRelative),
        (0x20, Instruction::JumpRelativeConditional { flag: ConditionalFlag::NZ }),
        (0x38, Instruction::JumpRelativeConditional { flag: ConditionalFlag::C }),
        (0x01, Instruction::LoadReg16 { register: DoubleRegister::BC }),
        (0x31, Instruction::LoadReg16 { register: DoubleRegister::SP }),
        (0x29, Instruction::AddHLReg { register: DoubleRegister::HL }),
        (0x02, Instruction::LoadBCA),
        (0x1A, Instruction::LoadADE),
        (0x22, Instruction::LoadIncrementHLA),
        (0x3A, Instruction::LoadDecrementAHL),
        (0x13, Instruction::IncrementReg16 { register: DoubleRegister::DE }),
        (0x3B, Instruction::DecrementReg16 { register: DoubleRegister::SP }),
        (0x04, Instruction::IncrementReg { register: Register::B }),
        (0x3C, Instruction::IncrementReg { register: Register::A }),
        (0x34, Instruction::IncrementHL),
        (0x2D, Instruction::DecrementReg { register: Register::L }),
        (0x35, Instruction::DecrementHL),
        (0x0E, Instruction::LoadReg8 { register: Register::C }),
        (0x26, Instruction::LoadReg8 { register: Register::H }),
        (0x36, Instruction::LoadHL8),
        (0x07, Instruction::RotateALeft),
        (0x0F, Instruction::RotateARight),
        (0x17, Instruction::RotateALeftThroughCarry),
        (0x1F, Instruction::RotateARightThroughCarry),
        (0x27, Instruction::DecimalAdjustA),
        (0x2F, Instruction::Complement),
        (0x37, Instruction::SetCarryFlag),
        (0x3F, Instruction::FlipCarryFlag),
        (0x41, Instruction::LoadReg { dst: Register::B, src: Register::C }),
        (0x7F, Instruction::LoadReg { dst: Register::A, src: Register::A }),
        (0x6C, Instruction::LoadReg { dst: Register::L, src: Register::H }),
        (0x46, Instruction::LoadRegHL { register: Register::B }),
        (0x7E, Instruction::LoadRegHL { register: Register::A }),
        (0x70, Instruction::LoadHLReg { register: Register::B }),
        (0x77, Instruction::LoadHLReg { register: Register::A }),
        (0x76, Instruction::Halt),
        (0x80, Instruction::AddAReg { register: Register::B }),
        (0x86, Instruction::AddAHL),
        (0x8F, Instruction::AddCarryAReg { register: Register::A }),
        (0x8E, Instruction::AddCarryAHL),
        (0x91, Instruction::SubtractAReg { register: Register::C }),
        (0x9E, Instruction::SubtractAHLCarry),
        (0x9A, Instruction::SubtractARegCarry { register: Register::D }),
        (0xA3, Instruction::AndAReg { register: Register::E }),
        (0xAE, Instruction::XorAHL),
        (0xAF, Instruction::XorAReg { register: Register::A }),
        (0xB4, Instruction::OrAReg { register: Register::H }),
        (0xBE, Instruction::CompareAHL),
        (0xBD, Instruction::CompareAReg { register: Register::L }),
        (0xC0, Instruction::ReturnConditional { flag: ConditionalFlag::NZ }),
        (0xD8, Instruction::ReturnConditional { flag: ConditionalFlag::C }),
        (0xE0, Instruction::LoadOffsetA),
        (0xE8, Instruction::AddSPOffset),
        (0xF0, Instruction::LoadAOffset),
        (0xF8, Instruction::LoadHLSPOffset),
        (0xC1, Instruction::PopReg { register: DoubleRegister::BC }),
        (0xF1, Instruction::PopReg { register: DoubleRegister::AF }),
        (0xC9, Instruction::Return),
        (0xD9, Instruction::ReturnAndEnableInterrupts),
        (0xE9, Instruction::JumpHL),
        (0xF9, Instruction::LoadSPHL),
        (0xCA, Instruction::JumpConditional { flag: ConditionalFlag::Z }),
        (0xD2, Instruction::JumpConditional { flag: ConditionalFlag::NC }),
        (0xE2, Instruction::LoadOffsetCA),
        (0xEA, Instruction::LoadAddressA),
        (0xF2, Instruction::LoadAOffsetC),
        (0xFA, Instruction::LoadAAddress),
        (0xC3, Instruction::Jump),
        (0xF3, Instruction::DisableInterrupts),
        (0xFB, Instruction::EnableInterrupts),
        (0xC4, Instruction::CallConditional { flag: ConditionalFlag::NZ }),
        (0xDC, Instruction::CallConditional { flag: ConditionalFlag::C }),
        (0xD5, Instruction::PushReg { register: DoubleRegister::DE }),
        (0xF5, Instruction::PushReg { register: DoubleRegister::AF }),
        (0xCD, Instruction::Call),
        (0xC6, Instruction::AddA),
        (0xCE, Instruction::AddCarryA),
        (0xD6, Instruction::SubtractA),
        (0xDE, Instruction::SubtractACarry),
        (0xE6, Instruction::AndA),
        (0xEE, Instruction::XorA),
        (0xF6, Instruction::OrA),
        (0xFE, Instruction::CompareA),
        (0xC7, Instruction::Reset0 { location: 0xC }),
        (0xCF, Instruction::Reset8 { location: 0xC }),
        (0xF7, Instruction::Reset0 { location: 0xF }),
        (0xFF, Instruction::Reset8 { location: 0xF }),
    ];
    for (opcode, instruction) in cases {
        assert_eq!(decode_opcode(opcode), instruction, "opcode {:02X}", opcode);
    }
}

#[test]
fn test_decode_invalid_opcodes() {
    let unused = [0xD3u8, 0xDB, 0xDD, 0xE3, 0xE4, 0xEB, 0xEC, 0xED, 0xF4, 0xFC, 0xFD];
    for opcode in 0..=255u8 {
        if opcode == 0xCB {
            continue;
        }
        let instruction = decode_opcode(opcode);
        assert_eq!(instruction == Instruction::Invalid, unused.contains(&opcode));
        assert_eq!(instruction.is_executable(), !unused.contains(&opcode));
        assert_eq!(
            instruction.classify() == InstructionClass::Invalid,
            unused.contains(&opcode)
        );
    }
}

#[test]
fn test_decode_extended_opcodes() {
    let cases = [
        (0x00u8, Instruction::RotateLeft { register: Register::B }),
        (0x06, Instruction::RotateHLLeft),
        (0x0F, Instruction::RotateRight { register: Register::A }),
        (0x0E, Instruction::RotateHLRight),
        (0x11, Instruction::RotateLeftThroughCarry { register: Register::C }),
        (0x16, Instruction::RotateHLLeftThroughCarry),
        (0x1A, Instruction::RotateRightThroughCarry { register: Register::D }),
        (0x1E, Instruction::RotateHLRightThroughCarry),
        (0x23, Instruction::ShiftLeftArithmetic { register: Register::E }),
        (0x26, Instruction::ShiftHLLeftArithmetic),
        (0x2C, Instruction::ShiftRightArithmetic { register: Register::H }),
        (0x2E, Instruction::ShiftHLRightArithmetic),
        (0x37, Instruction::Swap { register: Register::A }),
        (0x36, Instruction::SwapHL),
        (0x3D, Instruction::ShiftRightLogical { register: Register::L }),
        (0x3E, Instruction::ShiftHLRightLogical),
        (0x40, Instruction::TestBit { bit: 0, register: Register::B }),
        (0x46, Instruction::TestHLBit { bit: 0 }),
        (0x7F, Instruction::TestBit { bit: 7, register: Register::A }),
        (0x5E, Instruction::TestHLBit { bit: 3 }),
        (0x80, Instruction::ResetBit { bit: 0, register: Register::B }),
        (0xBE, Instruction::ResetHLBit { bit: 7 }),
        (0x9D, Instruction::ResetBit { bit: 3, register: Register::L }),
        (0xC0, Instruction::SetBit { bit: 0, register: Register::B }),
        (0xFF, Instruction::SetBit { bit: 7, register: Register::A }),
        (0xE6, Instruction::SetHLBit { bit: 4 }),
    ];
    for (opcode, instruction) in cases {
        assert_eq!(decode_extended(opcode), instruction, "opcode CB {:02X}", opcode);
    }
    for opcode in 0..=255u8 {
        assert!(decode_extended(opcode).is_executable());
    }
}

#[test]
fn test_parse_reads_without_changing_the_processor() {
    let mut cpu = quiet_cpu();
    let mut ram = Ram::new();
    cpu.program_counter = 0x0100;
    ram.cells[0x0100] = 0xCB;
    ram.cells[0x0101] = 0x7C;
    ram.cells[0x0102] = 0x3E;
    ram.cells[0xFFFF] = 0xCB;
    ram.cells[0x0000] = 0x37;

    let instruction = cpu.parse(&mut ram);
    assert_eq!(instruction, Instruction::TestBit { bit: 7, register: Register::H });
    assert_eq!(cpu.program_counter, 0x0100);
    assert_eq!((ram.reads, ram.writes), (2, 0));
    assert_eq!(
        cpu.parse_prefix(&mut ram),
        Instruction::TestBit { bit: 7, register: Register::H }
    );

    cpu.program_counter = 0x0102;
    assert_eq!(cpu.parse(&mut ram), Instruction::LoadReg8 { register: Register::A });
    assert_eq!((ram.reads, ram.writes), (4, 0));
    assert_eq!(flags(&cpu), (false, false, false, false));

    // the byte behind a prefix at the last address is at address 0
    cpu.program_counter = 0xFFFF;
    assert_eq!(cpu.parse(&mut ram), Instruction::Swap { register: Register::A });
}

#[test]
fn test_every_instruction_runs_and_has_its_length() {
    for prefixed in [false, true] {
        for opcode in 0..=255u8 {
            if !prefixed && opcode == 0xCB {
                continue;
            }
            let mut cpu = quiet_cpu();
            let mut ram = Ram::new();
            cpu.program_counter = 0x4000;
            cpu.stack_pointer = 0xD000;
            cpu.is_zero = true;
            if prefixed {
                ram.cells[0x4000] = 0xCB;
                ram.cells[0x4001] = opcode;
            } else {
                ram.cells[0x4000] = opcode;
            }
            let instruction = cpu.parse(&mut ram);
            if !instruction.is_executable() {
                continue;
            }
            cpu.execute(instruction, &mut ram);
            let length = cpu.program_counter.wrapping_sub(0x4000);
            let expected = match instruction.classify() {
                InstructionClass::Jump => continue,
                InstructionClass::Rotate if !prefixed => 1,
                InstructionClass::Rotate | InstructionClass::Bit => 2,
                InstructionClass::Control => match instruction {
                    Instruction::Halt | Instruction::Stop => 0,
                    _ => 1,
                },
                _ => match instruction {
                    Instruction::LoadReg8 { .. }
                    | Instruction::LoadHL8
                    | Instruction::LoadAOffset
                    | Instruction::LoadOffsetA
                    | Instruction::AddSPOffset
                    | Instruction::LoadHLSPOffset => 2,
                    Instruction::LoadAAddress
                    | Instruction::LoadAddressA
                    | Instruction::LoadReg16 { .. }
                    | Instruction::LoadAddressSP => 3,
                    _ if instruction.classify() == InstructionClass::Arithmetic8
                        && opcode >= 0xC0 =>
                    {
                        2
                    }
                    _ => 1,
                },
            };
            assert_eq!(length, expected, "{:?}", instruction);
        }
    }
}

#[test]
fn test_step_runs_the_instruction_at_the_program_counter() {
    let mut cpu = quiet_cpu();
    let mut ram = Ram::with_code(&[0x3E, 0x05, 0xC6, 0x03, 0xCB, 0x37, 0x00]);

    assert_eq!(cpu.step(&mut ram), Ok(Instruction::LoadReg8 { register: Register::A }));
    assert_eq!((cpu.a, cpu.program_counter), (0x05, 2));
    assert_eq!(cpu.step(&mut ram), Ok(Instruction::AddA));
    assert_eq!((cpu.a, cpu.program_counter), (0x08, 4));
    assert_eq!(cpu.step(&mut ram), Ok(Instruction::Swap { register: Register::A }));
    assert_eq!((cpu.a, cpu.program_counter), (0x80, 6));
    assert_eq!(cpu.step(&mut ram), Ok(Instruction::Nop));
    assert_eq!(cpu.program_counter, 7);
}

#[test]
fn test_invalid_opcode_stops_the_loop() {
    let mut cpu = quiet_cpu();
    let mut ram = Ram::with_code(&[0x3C, 0x3C, 0xD3, 0x3C]);

    assert_eq!(cpu.run_batch(&mut ram, 2), Ok(()));
    assert_eq!((cpu.a, cpu.program_counter), (2, 2));

    let error = cpu.step(&mut ram).unwrap_err();
    assert_eq!(error.address, 2);
    assert_eq!((cpu.a, cpu.program_counter), (2, 2));

    cpu.program_counter = 0;
    cpu.a = 0;
    let reads = ram.reads;
    let error = cpu.run_batch(&mut ram, 60).unwrap_err();
    assert_eq!(error.address, 2);
    assert_eq!((cpu.a, cpu.program_counter), (2, 2));
    // two instructions and the opcode that stopped the loop
    assert_eq!(ram.reads, reads + 3);

    assert_eq!(cpu.run_batch(&mut ram, 0), Ok(()));
}

#[test]
fn test_run_batch() {
    // count B down from 5: DEC B; JR NZ,-3; HALT
    let mut cpu = quiet_cpu();
    let mut ram = Ram::with_code(&[0x05, 0x20, 0xFD, 0x76]);
    cpu.b = 5;
    assert_eq!(cpu.run_batch(&mut ram, 10), Ok(()));
    assert_eq!(cpu.b, 0);
    assert_eq!(cpu.program_counter, 3);
    assert!(!cpu.halt);
    assert_eq!(cpu.run_batch(&mut ram, 3), Ok(()));
    assert!(cpu.halt);
    assert_eq!(cpu.program_counter, 3);
}
