use vstd::prelude::*;
use crate::cpu::{Cpu, CpuBus};
use crate::instructions::Instruction;
use crate::state::State;
use crate::util::{get_lower_byte, get_upper_byte};

verus! {

/// The address of the interrupt request register.
pub const INTERRUPT_REQUEST: u16 = 0xFF0F;

/// The address of the interrupt enable register.
pub const INTERRUPT_ENABLE: u16 = 0xFFFF;

/// The number of the interrupt that is served first among the pending ones:
/// 0 for the vertical blank, 1 for the LCD status, 2 for the timer, 3 for the
/// serial link, 4 for the joypad.
pub open spec fn first_pending(pending: u8) -> int {
    if pending & 0b0000_0001 != 0 {
        0
    } else if pending & 0b0000_0010 != 0 {
        1
    } else if pending & 0b0000_0100 != 0 {
        2
    } else if pending & 0b0000_1000 != 0 {
        3
    } else {
        4
    }
}

/// The address of the handler of an interrupt: 0x40, 0x48, 0x50, 0x58, 0x60.
pub open spec fn interrupt_vector(number: int) -> u16 {
    (0x40 + 8 * number) as u16
}

/// The request byte with the bit of one interrupt cleared.
pub open spec fn acknowledged(requested: u8, number: int) -> u8 {
    if number == 0 {
        requested & 0xFE
    } else if number == 1 {
        requested & 0xFD
    } else if number == 2 {
        requested & 0xFB
    } else if number == 3 {
        requested & 0xF7
    } else {
        requested & 0xEF
    }
}

/// How far a halted processor moves on when it wakes: over the two bytes of
/// STOP, else over the one byte of HALT.
pub open spec fn resume_length(instruction: Instruction) -> u16 {
    if instruction == Instruction::Stop {
        2
    } else {
        1
    }
}

impl<B: CpuBus> State<B> {
    /// Whether an interrupt can be dispatched after `instruction`: the
    /// master enable flag is set, and not by this very instruction.
    pub open spec fn may_dispatch(self, instruction: Instruction) -> bool {
        self.cpu.interrupts_enabled && instruction != Instruction::EnableInterrupts
    }

    /// The five request bits as the interrupt step reads them.
    pub open spec fn requested(self) -> u8 {
        self.bus.peek(INTERRUPT_REQUEST) & 0x1F
    }

    /// The five enable bits as the interrupt step reads them, after the
    /// request bits.
    pub open spec fn enabled(self) -> u8 {
        self.bus.after_read(INTERRUPT_REQUEST).peek(INTERRUPT_ENABLE) & 0x1F
    }

    /// The interrupts that are both requested and enabled.
    pub open spec fn pending(self) -> u8 {
        self.requested() & self.enabled()
    }

    /// The state after the request and the enable register were read.
    pub open spec fn polled(self) -> State<B> {
        self.read(INTERRUPT_REQUEST).read(INTERRUPT_ENABLE)
    }

    /// The halted processor wakes: it leaves the halted state and moves on
    /// over the instruction that halted it.
    pub open spec fn woken(self, instruction: Instruction) -> State<B> {
        State {
            cpu: Cpu { halt: false, ..self.cpu }.advanced(resume_length(instruction)),
            ..self
        }
    }

    /// Interrupt `number` is dispatched: the master enable flag is cleared,
    /// the request bit of this interrupt and of no other is cleared in the
    /// request byte `requested`, and the handler is called.
    pub open spec fn dispatched(self, requested: u8, number: int) -> State<B> {
        State { cpu: Cpu { interrupts_enabled: false, ..self.cpu }, ..self }.write(
            INTERRUPT_REQUEST,
            acknowledged(requested, number),
        ).called(interrupt_vector(number))
    }

    /// The interrupt step that follows the body of `instruction`. Where no
    /// interrupt can be dispatched and the processor is not halted nothing
    /// happens, and the bus is not touched. Otherwise both registers are
    /// read. If an interrupt is pending, a halted processor wakes, whatever
    /// the master enable flag says; and where interrupts can be dispatched,
    /// the pending one of the highest priority is.
    pub open spec fn interrupts_checked(self, instruction: Instruction) -> State<B> {
        if !self.may_dispatch(instruction) && !self.cpu.halt {
            self
        } else if self.pending() == 0 {
            self.polled()
        } else {
            let awake = if self.cpu.halt {
                self.polled().woken(instruction)
            } else {
                self.polled()
            };
            if self.may_dispatch(instruction) {
                awake.dispatched(self.requested(), first_pending(self.pending()))
            } else {
                awake
            }
        }
    }

    /// One whole step of the processor: the body of `instruction` and the
    /// interrupt step after it.
    pub open spec fn executed(self, instruction: Instruction) -> State<B> {
        self.run(instruction).interrupts_checked(instruction)
    }
}

impl Cpu {
    /// Pushes `value` onto the stack.
    pub fn push_word(&mut self, cpu_bus: &mut impl CpuBus, value: u16)
        ensures
            final(self).on(*final(cpu_bus)) == old(self).on(*old(cpu_bus)).pushed(value),
    {
        self.stack_pointer = self.stack_pointer.wrapping_sub(2);
        cpu_bus.write(self.stack_pointer, get_lower_byte(value));
        cpu_bus.write(self.stack_pointer.wrapping_add(1), get_upper_byte(value));
    }

    /// Pops a word off the stack.
    pub fn pop_word(&mut self, cpu_bus: &mut impl CpuBus) -> (value: u16)
        ensures
            value == old(self).on(*old(cpu_bus)).top_of_stack(),
            final(self).on(*final(cpu_bus)) == old(self).on(*old(cpu_bus)).popped(),
    {
        let low = cpu_bus.read(self.stack_pointer);
        let high = cpu_bus.read(self.stack_pointer.wrapping_add(1));
        self.stack_pointer = self.stack_pointer.wrapping_add(2);
        crate::util::combine_bytes(high, low)
    }

    /// Push the PC onto the stack, and set the PC to the given address.
    pub fn call_address(&mut self, cpu_bus: &mut impl CpuBus, address: u16)
        ensures
            final(self).on(*final(cpu_bus)) == old(self).on(*old(cpu_bus)).called(address),
    {
        let return_address = self.program_counter;
        self.push_word(cpu_bus, return_address);
        self.program_counter = address;
    }

    /// Pop the PC off the stack.
    pub fn return_from_call(&mut self, cpu_bus: &mut impl CpuBus)
        ensures
            final(self).on(*final(cpu_bus)) == old(self).on(*old(cpu_bus)).returned(),
    {
        let address = self.pop_word(cpu_bus);
        self.program_counter = address;
    }

    fn dispatch(&mut self, cpu_bus: &mut impl CpuBus, requested: u8, pending: u8)
        requires
            pending != 0,
        ensures
            final(self).on(*final(cpu_bus)) == old(self).on(*old(cpu_bus)).dispatched(
                requested,
                first_pending(pending),
            ),
    {
        self.interrupts_enabled = false;
        // Serve the interrupts in the order of their priority, and clear the
        // request bit of the one that is served.
        if pending & 0b0000_0001 != 0 {
            // VBlank
            cpu_bus.write(INTERRUPT_REQUEST, requested & 0xFE);
            self.call_address(cpu_bus, 0x40);
        } else if pending & 0b0000_0010 != 0 {
            // LCD STAT
            cpu_bus.write(INTERRUPT_REQUEST, requested & 0xFD);
            self.call_address(cpu_bus, 0x48);
        } else if pending & 0b0000_0100 != 0 {
            // Timer
            cpu_bus.write(INTERRUPT_REQUEST, requested & 0xFB);
            self.call_address(cpu_bus, 0x50);
        } else if pending & 0b0000_1000 != 0 {
            // Serial
            cpu_bus.write(INTERRUPT_REQUEST, requested & 0xF7);
            self.call_address(cpu_bus, 0x58);
        } else {
            // Joypad
            cpu_bus.write(INTERRUPT_REQUEST, requested & 0xEF);
            self.call_address(cpu_bus, 0x60);
        }
    }

    /// The interrupt step: wakes a halted processor if an interrupt is
    /// pending and, if interrupts can be dispatched, calls the handler of the
    /// pending interrupt of the highest priority.
    pub fn check_interrupts(&mut self, instruction: Instruction, cpu_bus: &mut impl CpuBus)
        ensures
            final(self).on(*final(cpu_bus)) == old(self).on(*old(cpu_bus)).interrupts_checked(
                instruction,
            ),
    {
        let may_dispatch = self.interrupts_enabled && !matches!(
            instruction,
            Instruction::EnableInterrupts
        );
        if may_dispatch || self.halt {
            // mask the relevant flag bits just in case
            let requested: u8 = cpu_bus.read(INTERRUPT_REQUEST) & 0x1F;
            let enabled: u8 = cpu_bus.read(INTERRUPT_ENABLE) & 0x1F;
            let pending: u8 = requested & enabled;

            // only interrupts that are both requested and enabled count
            if pending != 0 {
                if self.halt {
                    self.halt = false;
                    let length: u16 = if matches!(instruction, Instruction::Stop) {
                        2
                    } else {
                        1
                    };
                    self.advance(length);
                }
                if may_dispatch {
                    self.dispatch(cpu_bus, requested, pending);
                }
            }
        }
    }
}

} // verus!
