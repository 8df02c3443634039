use vstd::prelude::*;
use crate::cpu::{Cpu, CpuBus};
use crate::decode::decode;
use crate::instructions::Instruction;

verus! {

/// The 8-bit registers as a test harness names them; `F` is the flag byte.
#[derive(Debug, Clone, Copy, PartialEq, Eq, Structural)]
pub enum CpuRegister {
    A,
    F,
    B,
    C,
    D,
    E,
    H,
    L,
}

/// What a test harness asks of a processor: access to its registers, and
/// running one instruction out of a piece of code.
pub trait CpuHarness {
    /// Reads a register.
    fn get_reg(&self, n: CpuRegister) -> u8;

    /// Writes a register.
    fn set_reg(&mut self, n: CpuRegister, val: u8);

    /// Whether `code` starts with an instruction that can be run.
    spec fn runnable(&self, code: &[u8]) -> bool;

    /// Runs the one instruction that stands at the start of `code`.
    fn run(&mut self, code: &[u8])
        requires
            old(self).runnable(code),
    ;
}

/// A bus that holds nothing but a program, from address 0 on. A read past
/// the end of the program yields 0xFF, and writes are dropped.
pub struct ProgramBus<'a> {
    pub code: &'a [u8],
}

impl<'a> CpuBus for ProgramBus<'a> {
    open spec fn peek(&self, address: u16) -> u8 {
        if address < self.code@.len() {
            self.code@[address as int]
        } else {
            0xFF
        }
    }

    open spec fn after_read(&self, address: u16) -> Self {
        *self
    }

    open spec fn after_write(&self, address: u16, val: u8) -> Self {
        *self
    }

    fn read(&mut self, address: u16) -> (val: u8) {
        if (address as usize) < self.code.len() {
            self.code[address as usize]
        } else {
            0xFF
        }
    }

    fn write(&mut self, address: u16, val: u8) {
    }
}

impl Cpu {
    /// The register file with the program counter at 0.
    pub open spec fn restarted(self) -> Cpu {
        Cpu { program_counter: 0, ..self }
    }

    /// The instruction that stands at the start of `code`.
    pub open spec fn first_instruction(code: &[u8]) -> Instruction {
        let bus = ProgramBus { code };
        decode(bus.peek(0), bus.peek(1))
    }

    /// The register file after the instruction at the start of `code` ran
    /// from address 0.
    pub open spec fn after_running(self, code: &[u8]) -> Cpu {
        self.restarted().on(ProgramBus { code }).executed(Self::first_instruction(code)).cpu
    }
}

impl CpuHarness for Cpu {
    fn get_reg(&self, n: CpuRegister) -> (val: u8)
        ensures
            val == match n {
                CpuRegister::A => self.a,
                CpuRegister::F => self.flags_byte(),
                CpuRegister::B => self.b,
                CpuRegister::C => self.c,
                CpuRegister::D => self.d,
                CpuRegister::E => self.e,
                CpuRegister::H => self.h,
                CpuRegister::L => self.l,
            },
    {
        match n {
            CpuRegister::A => self.a,
            CpuRegister::F => self.flags_to_byte(),
            CpuRegister::B => self.b,
            CpuRegister::C => self.c,
            CpuRegister::D => self.d,
            CpuRegister::E => self.e,
            CpuRegister::H => self.h,
            CpuRegister::L => self.l,
        }
    }

    fn set_reg(&mut self, n: CpuRegister, val: u8)
        ensures
            *final(self) == match n {
                CpuRegister::A => Cpu { a: val, ..*old(self) },
                CpuRegister::F => old(self).with_flags_byte(val),
                CpuRegister::B => Cpu { b: val, ..*old(self) },
                CpuRegister::C => Cpu { c: val, ..*old(self) },
                CpuRegister::D => Cpu { d: val, ..*old(self) },
                CpuRegister::E => Cpu { e: val, ..*old(self) },
                CpuRegister::H => Cpu { h: val, ..*old(self) },
                CpuRegister::L => Cpu { l: val, ..*old(self) },
            },
    {
        match n {
            CpuRegister::A => self.a = val,
            CpuRegister::F => self.byte_to_flags(val),
            CpuRegister::B => self.b = val,
            CpuRegister::C => self.c = val,
            CpuRegister::D => self.d = val,
            CpuRegister::E => self.e = val,
            CpuRegister::H => self.h = val,
            CpuRegister::L => self.l = val,
        }
    }

    open spec fn runnable(&self, code: &[u8]) -> bool {
        Cpu::first_instruction(code).executable()
    }

    fn run(&mut self, code: &[u8])
        ensures
            *final(self) == old(self).after_running(code),
    {
        let mut bus = ProgramBus { code };
        self.program_counter = 0;
        let instruction = self.parse(&mut bus);
        self.execute(instruction, &mut bus);
    }
}

} // verus!
