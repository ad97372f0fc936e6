//! The fetch and execute cycle: one step, a run of steps, and the ways in
//! which the surroundings answer what the machine asked of them.

use vstd::prelude::*;
use crate::chip8::Chip8;
use crate::machine::{
    first_out_of_bounds, Machine, FLAG_REGISTER, MAX_MEMORY_ADDRESS, REGISTER_COUNT,
};
use crate::instruction::spec_decode;
use crate::opcodes::{execute, spec_execute, Action, Fault};

verus! {

/// A fault together with the place where it happened.
#[derive(Clone, Copy, Debug, PartialEq, Eq, Structural)]
pub struct FaultReport {
    /// What went wrong.
    pub fault: Fault,
    /// The address of the instruction that failed.
    pub program_counter: u16,
    /// The instruction word that failed; 0 where the fetch itself failed and
    /// there is none.
    pub instruction: u16,
}

/// Why a run of the machine came to an end.
#[derive(Clone, Copy, Debug, PartialEq, Eq, Structural)]
pub enum Halt {
    /// An instruction failed.
    Fault(FaultReport),
    /// An instruction asks something of the surroundings. The run can go on
    /// once they have answered.
    Request(Action),
    /// The cycles granted to the run are used up.
    Cancelled,
}

/// A state of the machine together with what one step said on the way to it.
pub struct StepOutcome {
    /// The state after the step.
    pub machine: Machine,
    /// The request to the surroundings, or the fault and its place.
    pub result: Result<Action, FaultReport>,
}

/// A state of the machine together with the reason why a run ended in it.
pub struct RunOutcome {
    /// The state in which the run ended.
    pub machine: Machine,
    /// Why it ended.
    pub halt: Halt,
}

/// The instruction word at the program counter: the byte there is its more
/// significant half, the byte after it the less significant one.
pub open spec fn spec_fetch(machine: Machine) -> u16 {
    (machine.memory[machine.program_counter as int] * 256 + machine.memory[machine.program_counter
        + 1]) as u16
}

/// One cycle. Where the two bytes at the program counter do not both lie in
/// memory, the step fails and the state stays as it is. Otherwise the
/// instruction word is fetched, the program counter moves past it, and the
/// instruction is carried out on that state; if it fails, the report names
/// the address it was fetched from.
pub open spec fn spec_step(machine: Machine, keys: u16) -> StepOutcome {
    if machine.program_counter >= MAX_MEMORY_ADDRESS {
        StepOutcome {
            machine,
            result: Err(
                FaultReport {
                    fault: Fault::MemoryOutOfBounds {
                        address: first_out_of_bounds(machine.program_counter),
                    },
                    program_counter: machine.program_counter,
                    instruction: 0,
                },
            ),
        }
    } else {
        let instruction = spec_fetch(machine);
        let outcome = spec_execute(
            machine.with_program_counter((machine.program_counter + 2) as u16),
            instruction,
            keys,
        );
        StepOutcome {
            machine: outcome.machine,
            result: match outcome.result {
                Ok(action) => Ok(action),
                Err(fault) => Err(
                    FaultReport { fault, program_counter: machine.program_counter, instruction },
                ),
            },
        }
    }
}

/// A run of at most `cycles` steps: it ends with the first step that fails
/// or asks something of the surroundings, and else when the cycles are used
/// up.
pub open spec fn spec_run(machine: Machine, keys: u16, cycles: nat) -> RunOutcome
    decreases cycles,
{
    if cycles == 0 {
        RunOutcome { machine, halt: Halt::Cancelled }
    } else {
        let step = spec_step(machine, keys);
        match step.result {
            Ok(Action::Continue) => spec_run(step.machine, keys, (cycles - 1) as nat),
            Ok(action) => RunOutcome { machine: step.machine, halt: Halt::Request(action) },
            Err(report) => RunOutcome { machine: step.machine, halt: Halt::Fault(report) },
        }
    }
}

impl Chip8 {
    /// Runs one cycle: fetches the instruction at the program counter and
    /// carries it out. `keys` holds one bit for each key that is down.
    pub fn step(&mut self, keys: u16) -> (result: Result<Action, FaultReport>)
        ensures
            final(self)@ == spec_step(old(self)@, keys).machine,
            result == spec_step(old(self)@, keys).result,
    {
        let program_counter = self.program_counter();
        if program_counter >= MAX_MEMORY_ADDRESS {
            let address = if program_counter > MAX_MEMORY_ADDRESS {
                program_counter
            } else {
                MAX_MEMORY_ADDRESS + 1
            };
            return Err(
                FaultReport {
                    fault: Fault::MemoryOutOfBounds { address },
                    program_counter,
                    instruction: 0,
                },
            );
        }
        let instruction = self.fetch_instruction();
        match execute(self, instruction, keys) {
            Ok(action) => Ok(action),
            Err(fault) => Err(FaultReport { fault, program_counter, instruction }),
        }
    }

    /// Runs the machine from the current program counter on, for at most
    /// `max_cycles` cycles, and says why it stopped: because an instruction
    /// failed, because an instruction asks something of the surroundings, or
    /// because the cycles are used up. `keys` holds one bit for each key that
    /// is down during the run.
    pub fn start_emulation(&mut self, keys: u16, max_cycles: u64) -> (halt: Halt)
        ensures
            final(self)@ == spec_run(old(self)@, keys, max_cycles as nat).machine,
            halt == spec_run(old(self)@, keys, max_cycles as nat).halt,
    {
        let mut remaining = max_cycles;
        while remaining > 0
            invariant
                spec_run(self@, keys, remaining as nat) == spec_run(
                    old(self)@,
                    keys,
                    max_cycles as nat,
                ),
            decreases remaining,
        {
            match self.step(keys) {
                Ok(Action::Continue) => {
                    remaining -= 1;
                },
                Ok(action) => {
                    return Halt::Request(action);
                },
                Err(report) => {
                    return Halt::Fault(report);
                },
            }
        }
        Halt::Cancelled
    }

    /// The answer to `Action::Draw`: sets `VF` to 1 if the sprite hit a set
    /// pixel and to 0 if it did not.
    pub fn finish_draw(&mut self, collided: bool)
        ensures
            final(self)@ == old(self)@.with_register(
                FLAG_REGISTER as int,
                if collided {
                    1u8
                } else {
                    0u8
                },
            ),
    {
        self.set_register_to_value(
            FLAG_REGISTER,
            if collided {
                1
            } else {
                0
            },
        );
    }

    /// The answer to `Action::WaitForKey`: puts the number of the key that
    /// was pressed into `register`.
    pub fn finish_key_wait(&mut self, register: usize, key: u8)
        requires
            register < REGISTER_COUNT,
        ensures
            final(self)@ == old(self)@.with_register(register as int, key),
    {
        self.set_register_to_value(register, key);
    }

    /// The answer to `Action::Random`: puts `byte`, masked with `mask`, into
    /// `register`.
    pub fn finish_random(&mut self, register: usize, mask: u8, byte: u8)
        requires
            register < REGISTER_COUNT,
        ensures
            final(self)@ == old(self)@.with_register(register as int, byte & mask),
    {
        self.set_register_to_value(register, byte & mask);
    }
}

/// Whether `instruction` is one of those that may skip the instruction after
/// them: `3xnn`, `4xnn`, `5xy0`, `9xy0`, `Ex9E`, `ExA1`.
pub open spec fn is_skip(instruction: u16) -> bool {
    let family = spec_decode(instruction).family;
    family == 0x3 || family == 0x4 || family == 0x5 || family == 0x9 || family == 0xE
}

/// Whether `instruction` sets the program counter to an address of its own:
/// the jumps `1nnn` and `Bnnn`, the call `2nnn` and the return `00EE`.
pub open spec fn is_transfer(instruction: u16) -> bool {
    let family = spec_decode(instruction).family;
    family == 0x1 || family == 0x2 || family == 0xB || instruction == 0x00EE
}

/// A step moves the program counter on by exactly two, whatever the
/// instruction does otherwise, with these exceptions: a jump, call or return
/// that succeeds puts its own target there, and a skip moves it on by two or
/// by four. A step whose instruction fails has moved it on by two; a step
/// that cannot fetch leaves it where it was.
pub proof fn lemma_step_advances_program_counter(machine: Machine, keys: u16)
    requires
        machine.wf(),
    ensures
        ({
            let after = spec_step(machine, keys);
            let instruction = spec_fetch(machine);
            let before = machine.program_counter;
            &&& before >= MAX_MEMORY_ADDRESS ==> after.machine == machine && after.result is Err
            &&& before < MAX_MEMORY_ADDRESS && !is_skip(instruction) && !is_transfer(instruction)
                ==> after.machine.program_counter == before + 2
            &&& before < MAX_MEMORY_ADDRESS && after.result is Err
                ==> after.machine.program_counter == before + 2
            &&& before < MAX_MEMORY_ADDRESS && is_skip(instruction) ==> (
            after.machine.program_counter == before + 2 || after.machine.program_counter == before
                + 4)
        }),
{
}

/// A step keeps the shape of the machine: the stores keep their sizes and
/// the stack pointer stays within its range.
pub proof fn lemma_step_preserves_wf(machine: Machine, keys: u16)
    requires
        machine.wf(),
    ensures
        spec_step(machine, keys).machine.wf(),
{
}

/// A run keeps the shape of the machine, however long it is.
pub proof fn lemma_run_preserves_wf(machine: Machine, keys: u16, cycles: nat)
    requires
        machine.wf(),
    ensures
        spec_run(machine, keys, cycles).machine.wf(),
    decreases cycles,
{
    if cycles > 0 {
        lemma_step_preserves_wf(machine, keys);
        lemma_run_preserves_wf(spec_step(machine, keys).machine, keys, (cycles - 1) as nat);
    }
}

} // verus!
