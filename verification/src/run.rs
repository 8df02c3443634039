use vstd::prelude::*;
use crate::cpu::{Cpu, CpuBus};
use crate::decode::decode;
use crate::instructions::Instruction;
use crate::state::State;

verus! {

/// The fatal condition of the instruction loop: at `address` stands an
/// opcode that is no instruction.
#[derive(Debug, Clone, Copy, PartialEq, Eq, Structural)]
pub struct InvalidOpcode {
    pub address: u16,
}

impl<B: CpuBus> State<B> {
    /// The instruction that stands at the program counter.
    pub open spec fn instruction(self) -> Instruction {
        decode(
            self.bus.peek(self.cpu.program_counter),
            self.bus.after_read(self.cpu.program_counter).peek(self.cpu.operand_address(1)),
        )
    }

    /// The state after the instruction at the program counter was decoded:
    /// its opcode was read, and the byte behind it where the opcode is the
    /// prefix.
    pub open spec fn decoded(self) -> State<B> {
        if self.bus.peek(self.cpu.program_counter) == 0xCB {
            self.read(self.cpu.program_counter).read(self.cpu.operand_address(1))
        } else {
            self.read(self.cpu.program_counter)
        }
    }

    /// Whether the loop stops here: the opcode at the program counter is no
    /// instruction.
    pub open spec fn stuck(self) -> bool {
        !self.instruction().executable()
    }

    /// The state one turn of the instruction loop later: the instruction at
    /// the program counter was decoded and, unless the loop stops here,
    /// carried out.
    #[verifier::opaque]
    pub open spec fn next(self) -> State<B> {
        if self.stuck() {
            self.decoded()
        } else {
            self.decoded().executed(self.instruction())
        }
    }

    /// Whether a batch of `count` turns of the loop meets an opcode that is
    /// no instruction.
    pub open spec fn batch_stops(self, count: nat) -> bool
        decreases count,
    {
        count > 0 && (self.stuck() || self.next().batch_stops((count - 1) as nat))
    }

    /// The address of the opcode at which a batch of `count` turns stops.
    pub open spec fn batch_stops_at(self, count: nat) -> u16
        decreases count,
    {
        if count == 0 || self.stuck() {
            self.cpu.program_counter
        } else {
            self.next().batch_stops_at((count - 1) as nat)
        }
    }

    /// The state after a batch of `count` turns of the loop; the loop ends
    /// early where it meets an opcode that is no instruction.
    pub open spec fn after_batch(self, count: nat) -> State<B>
        decreases count,
    {
        if count == 0 {
            self
        } else if self.stuck() {
            self.decoded()
        } else {
            self.next().after_batch((count - 1) as nat)
        }
    }
}

impl Cpu {
    /// One turn of the instruction loop: decodes the instruction at the
    /// program counter and carries it out. An opcode that is no instruction
    /// is fatal: nothing is carried out, and the address of the opcode is
    /// returned as the error.
    pub fn step(&mut self, cpu_bus: &mut impl CpuBus) -> (r: Result<Instruction, InvalidOpcode>)
        ensures
            final(self).on(*final(cpu_bus)) == old(self).on(*old(cpu_bus)).next(),
            old(self).on(*old(cpu_bus)).stuck() ==> final(self).on(*final(cpu_bus)) == old(
                self,
            ).on(*old(cpu_bus)).decoded(),
            r == if old(self).on(*old(cpu_bus)).stuck() {
                Err::<Instruction, InvalidOpcode>(
                    InvalidOpcode { address: old(self).program_counter },
                )
            } else {
                Ok::<Instruction, InvalidOpcode>(old(self).on(*old(cpu_bus)).instruction())
            },
    {
        proof {
            reveal(State::next);
        }
        let instruction = self.parse(cpu_bus);
        if instruction.is_executable() {
            self.execute(instruction, cpu_bus);
            Ok(instruction)
        } else {
            Err(InvalidOpcode { address: self.program_counter })
        }
    }

    /// Runs a batch of `count` turns of the instruction loop. The loop stops
    /// at the first opcode that is no instruction and returns its address as
    /// the error.
    pub fn run_batch(&mut self, cpu_bus: &mut impl CpuBus, count: usize) -> (r: Result<
        (),
        InvalidOpcode,
    >)
        ensures
            final(self).on(*final(cpu_bus)) == old(self).on(*old(cpu_bus)).after_batch(
                count as nat,
            ),
            r == if old(self).on(*old(cpu_bus)).batch_stops(count as nat) {
                Err::<(), InvalidOpcode>(
                    InvalidOpcode {
                        address: old(self).on(*old(cpu_bus)).batch_stops_at(count as nat),
                    },
                )
            } else {
                Ok::<(), InvalidOpcode>(())
            },
    {
        let ghost start = self.on(*cpu_bus);
        let mut done: usize = 0;
        while done < count
            invariant
                done <= count,
                start == old(self).on(*old(cpu_bus)),
                start.after_batch(count as nat) == self.on(*cpu_bus).after_batch(
                    (count - done) as nat,
                ),
                start.batch_stops(count as nat) == self.on(*cpu_bus).batch_stops(
                    (count - done) as nat,
                ),
                start.batch_stops(count as nat) ==> start.batch_stops_at(count as nat) == self.on(
                    *cpu_bus,
                ).batch_stops_at((count - done) as nat),
            decreases count - done,
        {
            let ghost before = self.on(*cpu_bus);
            let ghost left = (count - done) as nat;
            assert(before.after_batch(left) == if before.stuck() {
                before.decoded()
            } else {
                before.next().after_batch((left - 1) as nat)
            });
            assert(before.batch_stops(left) == (before.stuck() || before.next().batch_stops(
                (left - 1) as nat,
            )));
            assert(before.batch_stops_at(left) == if before.stuck() {
                before.cpu.program_counter
            } else {
                before.next().batch_stops_at((left - 1) as nat)
            });
            match self.step(cpu_bus) {
                Ok(_) => {},
                Err(error) => {
                    return Err(error);
                },
            }
            done += 1;
        }
        Ok(())
    }
}

} // verus!
