//! What each instruction does. The instructions are grouped into sixteen
//! families by their top nibble; each family has a function that states its
//! meaning on the model of the machine, and a handler that carries it out.
//!
//! An instruction reads its operands before it writes anything, and where it
//! writes two registers the writes land in the order in which its entry names
//! them, so that the later one stays where both name the same register.

use vstd::prelude::*;
use crate::chip8::Chip8;
use crate::instruction::{decode, spec_decode};
use crate::machine::{
    first_out_of_bounds, key_is_down, registers_loaded, registers_stored, Machine,
    FLAG_REGISTER, FONT_SPRITE_SIZE, FONT_START_ADDRESS, MAX_MEMORY_ADDRESS,
    MAX_STACK_POINTER, MEMORY_SIZE,
};

verus! {

/// What the machine asks of its surroundings after an instruction.
#[derive(Clone, Copy, Debug, PartialEq, Eq, Structural)]
pub enum Action {
    /// Nothing: go on with the next instruction.
    Continue,
    /// Clear the display.
    ClearDisplay,
    /// Draw the sprite whose `rows` bytes start at `address` in memory, at
    /// the coordinates (`x`, `y`), then report whether a set pixel was hit.
    Draw { x: u8, y: u8, address: u16, rows: u8 },
    /// Wait until a key is pressed, then deliver it to `register`.
    WaitForKey { register: usize },
    /// Draw a random byte and deliver it, masked with `mask`, to `register`.
    Random { register: usize, mask: u8 },
}

/// Why an instruction could not be carried out.
#[derive(Clone, Copy, Debug, PartialEq, Eq, Structural)]
pub enum Fault {
    /// A call found the call stack full.
    StackOverflow,
    /// A return found the call stack empty.
    StackUnderflow,
    /// The instruction word belongs to no instruction.
    UnknownOpcode,
    /// The instruction reaches beyond the last memory address; `address` is
    /// the first address out of range that it would touch.
    MemoryOutOfBounds { address: u16 },
}

/// A state of the machine together with what an instruction said on the way
/// to it.
pub struct Outcome {
    /// The state after the instruction.
    pub machine: Machine,
    /// The request to the surroundings, or the fault.
    pub result: Result<Action, Fault>,
}

/// `1nnn`: jump to `nnn`.
pub open spec fn spec_family_0x1000(machine: Machine, instruction: u16) -> Machine {
    machine.with_program_counter(spec_decode(instruction).nnn)
}

/// `3xnn`: skip the next instruction if `Vx` equals `nn`.
pub open spec fn spec_family_0x3000(machine: Machine, instruction: u16) -> Machine {
    let fields = spec_decode(instruction);
    machine.skip_if(machine.registers[fields.x as int] == fields.nn)
}

/// `4xnn`: skip the next instruction if `Vx` differs from `nn`.
pub open spec fn spec_family_0x4000(machine: Machine, instruction: u16) -> Machine {
    let fields = spec_decode(instruction);
    machine.skip_if(machine.registers[fields.x as int] != fields.nn)
}

/// `6xnn`: set `Vx` to `nn`.
pub open spec fn spec_family_0x6000(machine: Machine, instruction: u16) -> Machine {
    let fields = spec_decode(instruction);
    machine.with_register(fields.x as int, fields.nn)
}

/// `7xnn`: add `nn` to `Vx`, modulo 256, without touching the flag.
pub open spec fn spec_family_0x7000(machine: Machine, instruction: u16) -> Machine {
    let fields = spec_decode(instruction);
    machine.with_register(
        fields.x as int,
        ((machine.registers[fields.x as int] + fields.nn) % 256) as u8,
    )
}

/// `Annn`: set the index register to `nnn`.
pub open spec fn spec_family_0xa000(machine: Machine, instruction: u16) -> Machine {
    Machine { index_register: spec_decode(instruction).nnn, ..machine }
}

/// `Bnnn`: jump to `nnn` plus `V0`.
pub open spec fn spec_family_0xb000(machine: Machine, instruction: u16) -> Machine {
    machine.with_program_counter((spec_decode(instruction).nnn + machine.registers[0]) as u16)
}

/// The outcome of an instruction that ran to its end and asks for nothing.
pub open spec fn done(machine: Machine) -> Outcome {
    Outcome { machine, result: Ok(Action::Continue) }
}

/// The outcome of an instruction that failed: the state is as it was.
pub open spec fn failed(machine: Machine, fault: Fault) -> Outcome {
    Outcome { machine, result: Err(fault) }
}

/// `00E0`: clear the display. `00EE`: return, that is, take the newest
/// return address off the call stack and continue there; a fault where the
/// stack is empty. No other word of this family is an instruction.
pub open spec fn spec_family_0x0000(machine: Machine, instruction: u16) -> Outcome {
    if instruction == 0x00E0 {
        Outcome { machine, result: Ok(Action::ClearDisplay) }
    } else if instruction == 0x00EE {
        if machine.stack_pointer == 0 {
            failed(machine, Fault::StackUnderflow)
        } else {
            done(
                Machine {
                    program_counter: machine.stack[machine.stack_pointer - 1],
                    stack_pointer: (machine.stack_pointer - 1) as u8,
                    ..machine
                },
            )
        }
    } else {
        failed(machine, Fault::UnknownOpcode)
    }
}

/// `2nnn`: call, that is, put the program counter on the call stack and
/// continue at `nnn`; a fault where the stack is full.
pub open spec fn spec_family_0x2000(machine: Machine, instruction: u16) -> Outcome {
    if machine.stack_pointer >= MAX_STACK_POINTER {
        failed(machine, Fault::StackOverflow)
    } else {
        done(
            Machine {
                stack: machine.stack.update(
                    machine.stack_pointer as int,
                    machine.program_counter,
                ),
                stack_pointer: (machine.stack_pointer + 1) as u8,
                program_counter: spec_decode(instruction).nnn,
                ..machine
            },
        )
    }
}

/// `5xy0`: skip the next instruction if `Vx` equals `Vy`. A word of this
/// family whose last nibble is not zero is no instruction.
pub open spec fn spec_family_0x5000(machine: Machine, instruction: u16) -> Outcome {
    let fields = spec_decode(instruction);
    if fields.n == 0 {
        done(
            machine.skip_if(
                machine.registers[fields.x as int] == machine.registers[fields.y as int],
            ),
        )
    } else {
        failed(machine, Fault::UnknownOpcode)
    }
}

/// `9xy0`: skip the next instruction if `Vx` differs from `Vy`. A word of
/// this family whose last nibble is not zero is no instruction.
pub open spec fn spec_family_0x9000(machine: Machine, instruction: u16) -> Outcome {
    let fields = spec_decode(instruction);
    if fields.n == 0 {
        done(
            machine.skip_if(
                machine.registers[fields.x as int] != machine.registers[fields.y as int],
            ),
        )
    } else {
        failed(machine, Fault::UnknownOpcode)
    }
}

/// The value that `8xyn` puts into `Vx`, for the values of `n` that denote
/// an instruction: `0` gives `Vy`; `1`, `2`, `3` the bitwise or, and,
/// exclusive or of `Vx` and `Vy`; `4` their sum; `5` `Vx` minus `Vy`; `6`
/// half of `Vx`; `7` `Vy` minus `Vx`; `E` twice `Vx`. Sums, differences and
/// doubles are taken modulo 256.
pub open spec fn arithmetic_value(vx: u8, vy: u8, n: u8) -> u8 {
    if n == 0x0 {
        vy
    } else if n == 0x1 {
        vx | vy
    } else if n == 0x2 {
        vx & vy
    } else if n == 0x3 {
        vx ^ vy
    } else if n == 0x4 {
        ((vx + vy) % 256) as u8
    } else if n == 0x5 {
        ((vx - vy) % 256) as u8
    } else if n == 0x6 {
        (vx / 2) as u8
    } else if n == 0x7 {
        ((vy - vx) % 256) as u8
    } else {
        ((vx * 2) % 256) as u8
    }
}

/// The value that `8xyn` puts into `VF`, for the values of `n` that set it:
/// `4` gives 1 on a carry, else 0; `5` and `7` give 0 on a borrow, else 1;
/// `6` gives the lowest bit of `Vx` and `E` its highest.
pub open spec fn arithmetic_flag(vx: u8, vy: u8, n: u8) -> u8 {
    if n == 0x4 {
        if vx + vy > 255 {
            1
        } else {
            0
        }
    } else if n == 0x5 {
        if vx < vy {
            0
        } else {
            1
        }
    } else if n == 0x6 {
        (vx % 2) as u8
    } else if n == 0x7 {
        if vy < vx {
            0
        } else {
            1
        }
    } else {
        (vx / 128) as u8
    }
}

/// The registers after `8xyn`, for the values of `n` that denote an
/// instruction. `0` to `3` write `Vx` alone. `4`, `5` and `7` write `Vx` and
/// then `VF`; `6` and `E` write `VF` and then `Vx`.
pub open spec fn arithmetic_result(registers: Seq<u8>, x: int, y: int, n: u8) -> Seq<u8> {
    let value = arithmetic_value(registers[x], registers[y], n);
    let flag = arithmetic_flag(registers[x], registers[y], n);
    if n <= 0x3 {
        registers.update(x, value)
    } else if n == 0x6 || n == 0xE {
        registers.update(FLAG_REGISTER as int, flag).update(x, value)
    } else {
        registers.update(x, value).update(FLAG_REGISTER as int, flag)
    }
}

/// Whether `8xyn` is an instruction for this `n`.
pub open spec fn is_arithmetic_selector(n: u8) -> bool {
    n <= 0x7 || n == 0xE
}

/// `8xyn`: arithmetic and logic on `Vx` and `Vy`, as `arithmetic_result`
/// says; a word whose last nibble selects none of them is no instruction.
pub open spec fn spec_family_0x8000(machine: Machine, instruction: u16) -> Outcome {
    let fields = spec_decode(instruction);
    if is_arithmetic_selector(fields.n) {
        done(
            Machine {
                registers: arithmetic_result(
                    machine.registers,
                    fields.x as int,
                    fields.y as int,
                    fields.n,
                ),
                ..machine
            },
        )
    } else {
        failed(machine, Fault::UnknownOpcode)
    }
}

/// `Cxnn`: ask for a random byte, which goes to `Vx` masked with `nn`.
pub open spec fn spec_family_0xc000(machine: Machine, instruction: u16) -> Outcome {
    let fields = spec_decode(instruction);
    Outcome { machine, result: Ok(Action::Random { register: fields.x, mask: fields.nn }) }
}

/// `Dxyn`: ask for the sprite of `n` bytes at the index register to be drawn
/// at (`Vx`, `Vy`); a fault where the sprite reaches beyond the end of
/// memory.
pub open spec fn spec_family_0xd000(machine: Machine, instruction: u16) -> Outcome {
    let fields = spec_decode(instruction);
    if fields.n > 0 && machine.index_register + fields.n > MEMORY_SIZE {
        failed(
            machine,
            Fault::MemoryOutOfBounds { address: first_out_of_bounds(machine.index_register) },
        )
    } else {
        Outcome {
            machine,
            result: Ok(
                Action::Draw {
                    x: machine.registers[fields.x as int],
                    y: machine.registers[fields.y as int],
                    address: machine.index_register,
                    rows: fields.n,
                },
            ),
        }
    }
}

/// `Ex9E`: skip the next instruction if the key `Vx` is down. `ExA1`: skip it
/// if that key is not down. No other word of this family is an instruction.
pub open spec fn spec_family_0xe000(machine: Machine, instruction: u16, keys: u16) -> Outcome {
    let fields = spec_decode(instruction);
    let down = key_is_down(keys, machine.registers[fields.x as int]);
    if fields.nn == 0x9E {
        done(machine.skip_if(down))
    } else if fields.nn == 0xA1 {
        done(machine.skip_if(!down))
    } else {
        failed(machine, Fault::UnknownOpcode)
    }
}

/// Whether an access to `count` bytes from the index register on stays
/// within memory.
pub open spec fn index_in_bounds(machine: Machine, count: int) -> bool {
    machine.index_register + count <= MEMORY_SIZE
}

/// The fault of an access from the index register on that leaves memory.
pub open spec fn index_fault(machine: Machine) -> Outcome {
    failed(
        machine,
        Fault::MemoryOutOfBounds { address: first_out_of_bounds(machine.index_register) },
    )
}

/// The family `Fxnn`, by its low byte:
/// `07` sets `Vx` to the delay timer; `0A` asks for a key, which goes to
/// `Vx`; `15` sets the delay timer and `18` the sound timer to `Vx`; `1E`
/// adds `Vx` to the index register, modulo 65536; `29` points the index
/// register at the sprite of the digit in the low nibble of `Vx`; `33`
/// stores the hundreds, tens and ones of `Vx` at the index register and the
/// two addresses after it; `55` stores `V0` to `Vx` from the index register
/// on and `65` loads them from there. The last three fail where they reach
/// beyond the end of memory. No other low byte denotes an instruction.
pub open spec fn spec_family_0xf000(machine: Machine, instruction: u16) -> Outcome {
    let fields = spec_decode(instruction);
    let x = fields.x as int;
    let vx = machine.registers[x];
    let index = machine.index_register as int;
    if fields.nn == 0x07 {
        done(machine.with_register(x, machine.delay_timer))
    } else if fields.nn == 0x0A {
        Outcome { machine, result: Ok(Action::WaitForKey { register: fields.x }) }
    } else if fields.nn == 0x15 {
        done(Machine { delay_timer: vx, ..machine })
    } else if fields.nn == 0x18 {
        done(Machine { sound_timer: vx, ..machine })
    } else if fields.nn == 0x1E {
        done(Machine { index_register: ((index + vx) % 0x10000) as u16, ..machine })
    } else if fields.nn == 0x29 {
        done(
            Machine {
                index_register: (FONT_START_ADDRESS + FONT_SPRITE_SIZE * (vx % 16)) as u16,
                ..machine
            },
        )
    } else if fields.nn == 0x33 {
        if index_in_bounds(machine, 3) {
            done(
                Machine {
                    memory: machine.memory.update(index, (vx / 100) as u8).update(
                        index + 1,
                        ((vx / 10) % 10) as u8,
                    ).update(index + 2, (vx % 10) as u8),
                    ..machine
                },
            )
        } else {
            index_fault(machine)
        }
    } else if fields.nn == 0x55 {
        if index_in_bounds(machine, x + 1) {
            done(
                Machine {
                    memory: registers_stored(machine.memory, machine.registers, index, x + 1),
                    ..machine
                },
            )
        } else {
            index_fault(machine)
        }
    } else if fields.nn == 0x65 {
        if index_in_bounds(machine, x + 1) {
            done(
                Machine {
                    registers: registers_loaded(machine.registers, machine.memory, index, x + 1),
                    ..machine
                },
            )
        } else {
            index_fault(machine)
        }
    } else {
        failed(machine, Fault::UnknownOpcode)
    }
}

/// What the instruction word `instruction` does to `machine`, given the
/// keys that are down: the meaning of the family that its top nibble names.
pub open spec fn spec_execute(machine: Machine, instruction: u16, keys: u16) -> Outcome {
    let family = spec_decode(instruction).family;
    if family == 0x0 {
        spec_family_0x0000(machine, instruction)
    } else if family == 0x1 {
        done(spec_family_0x1000(machine, instruction))
    } else if family == 0x2 {
        spec_family_0x2000(machine, instruction)
    } else if family == 0x3 {
        done(spec_family_0x3000(machine, instruction))
    } else if family == 0x4 {
        done(spec_family_0x4000(machine, instruction))
    } else if family == 0x5 {
        spec_family_0x5000(machine, instruction)
    } else if family == 0x6 {
        done(spec_family_0x6000(machine, instruction))
    } else if family == 0x7 {
        done(spec_family_0x7000(machine, instruction))
    } else if family == 0x8 {
        spec_family_0x8000(machine, instruction)
    } else if family == 0x9 {
        spec_family_0x9000(machine, instruction)
    } else if family == 0xA {
        done(spec_family_0xa000(machine, instruction))
    } else if family == 0xB {
        done(spec_family_0xb000(machine, instruction))
    } else if family == 0xC {
        spec_family_0xc000(machine, instruction)
    } else if family == 0xD {
        spec_family_0xd000(machine, instruction)
    } else if family == 0xE {
        spec_family_0xe000(machine, instruction, keys)
    } else {
        spec_family_0xf000(machine, instruction)
    }
}

/// Carries out `1nnn`.
pub fn opcode_family_0x1000(emulated_chip: &mut Chip8, instruction: u16)
    ensures
        final(emulated_chip)@ == spec_family_0x1000(old(emulated_chip)@, instruction),
{
    let fields = decode(instruction);
    emulated_chip.set_program_counter(fields.nnn);
}

/// Carries out `3xnn`.
pub fn opcode_family_0x3000(emulated_chip: &mut Chip8, instruction: u16)
    ensures
        final(emulated_chip)@ == spec_family_0x3000(old(emulated_chip)@, instruction),
{
    let fields = decode(instruction);
    let equal = emulated_chip.register(fields.x) == fields.nn;
    emulated_chip.skip_next_instruction_if(equal);
}

/// Carries out `4xnn`.
pub fn opcode_family_0x4000(emulated_chip: &mut Chip8, instruction: u16)
    ensures
        final(emulated_chip)@ == spec_family_0x4000(old(emulated_chip)@, instruction),
{
    let fields = decode(instruction);
    let different = emulated_chip.register(fields.x) != fields.nn;
    emulated_chip.skip_next_instruction_if(different);
}

/// Carries out `6xnn`.
pub fn opcode_family_0x6000(emulated_chip: &mut Chip8, instruction: u16)
    ensures
        final(emulated_chip)@ == spec_family_0x6000(old(emulated_chip)@, instruction),
{
    let fields = decode(instruction);
    emulated_chip.set_register_to_value(fields.x, fields.nn);
}

/// Carries out `7xnn`.
pub fn opcode_family_0x7000(emulated_chip: &mut Chip8, instruction: u16)
    ensures
        final(emulated_chip)@ == spec_family_0x7000(old(emulated_chip)@, instruction),
{
    let fields = decode(instruction);
    let sum: u16 = emulated_chip.register(fields.x) as u16 + fields.nn as u16;
    let wrapped: u8 = if sum > 255 {
        (sum - 256) as u8
    } else {
        sum as u8
    };
    emulated_chip.set_register_to_value(fields.x, wrapped);
}

/// Carries out `Annn`.
pub fn opcode_family_0xa000(emulated_chip: &mut Chip8, instruction: u16)
    ensures
        final(emulated_chip)@ == spec_family_0xa000(old(emulated_chip)@, instruction),
{
    let fields = decode(instruction);
    emulated_chip.set_index_register(fields.nnn);
}

/// Carries out `Bnnn`.
pub fn opcode_family_0xb000(emulated_chip: &mut Chip8, instruction: u16)
    ensures
        final(emulated_chip)@ == spec_family_0xb000(old(emulated_chip)@, instruction),
{
    let fields = decode(instruction);
    let target: u16 = fields.nnn + emulated_chip.register(0) as u16;
    emulated_chip.set_program_counter(target);
}

/// Carries out `00E0` and `00EE`.
pub fn opcode_family_0x0000(emulated_chip: &mut Chip8, instruction: u16) -> (result: Result<
    Action,
    Fault,
>)
    ensures
        final(emulated_chip)@ == spec_family_0x0000(old(emulated_chip)@, instruction).machine,
        result == spec_family_0x0000(old(emulated_chip)@, instruction).result,
{
    if instruction == 0x00E0 {
        Ok(Action::ClearDisplay)
    } else if instruction == 0x00EE {
        match emulated_chip.pop_return_address() {
            Some(address) => {
                emulated_chip.set_program_counter(address);
                Ok(Action::Continue)
            },
            None => Err(Fault::StackUnderflow),
        }
    } else {
        Err(Fault::UnknownOpcode)
    }
}

/// Carries out `2nnn`.
pub fn opcode_family_0x2000(emulated_chip: &mut Chip8, instruction: u16) -> (result: Result<
    Action,
    Fault,
>)
    ensures
        final(emulated_chip)@ == spec_family_0x2000(old(emulated_chip)@, instruction).machine,
        result == spec_family_0x2000(old(emulated_chip)@, instruction).result,
{
    let fields = decode(instruction);
    let return_address = emulated_chip.program_counter();
    if emulated_chip.push_return_address(return_address) {
        emulated_chip.set_program_counter(fields.nnn);
        Ok(Action::Continue)
    } else {
        Err(Fault::StackOverflow)
    }
}

/// Carries out `5xy0`.
pub fn opcode_family_0x5000(emulated_chip: &mut Chip8, instruction: u16) -> (result: Result<
    Action,
    Fault,
>)
    ensures
        final(emulated_chip)@ == spec_family_0x5000(old(emulated_chip)@, instruction).machine,
        result == spec_family_0x5000(old(emulated_chip)@, instruction).result,
{
    let fields = decode(instruction);
    if fields.n != 0 {
        return Err(Fault::UnknownOpcode);
    }
    let equal = emulated_chip.register(fields.x) == emulated_chip.register(fields.y);
    emulated_chip.skip_next_instruction_if(equal);
    Ok(Action::Continue)
}

/// Carries out `9xy0`.
pub fn opcode_family_0x9000(emulated_chip: &mut Chip8, instruction: u16) -> (result: Result<
    Action,
    Fault,
>)
    ensures
        final(emulated_chip)@ == spec_family_0x9000(old(emulated_chip)@, instruction).machine,
        result == spec_family_0x9000(old(emulated_chip)@, instruction).result,
{
    let fields = decode(instruction);
    if fields.n != 0 {
        return Err(Fault::UnknownOpcode);
    }
    let different = emulated_chip.register(fields.x) != emulated_chip.register(fields.y);
    emulated_chip.skip_next_instruction_if(different);
    Ok(Action::Continue)
}

/// Computes what `8xyn` puts into `Vx` and into `VF`.
fn arithmetic(vx: u8, vy: u8, n: u8) -> (result: (u8, u8))
    requires
        is_arithmetic_selector(n),
    ensures
        result.0 == arithmetic_value(vx, vy, n),
        4 <= n ==> result.1 == arithmetic_flag(vx, vy, n),
{
    if n == 0x0 {
        (vy, 0)
    } else if n == 0x1 {
        (vx | vy, 0)
    } else if n == 0x2 {
        (vx & vy, 0)
    } else if n == 0x3 {
        (vx ^ vy, 0)
    } else if n == 0x4 {
        let sum: u16 = vx as u16 + vy as u16;
        if sum > 255 {
            ((sum - 256) as u8, 1)
        } else {
            (sum as u8, 0)
        }
    } else if n == 0x5 {
        if vx < vy {
            ((256 - (vy - vx) as u16) as u8, 0)
        } else {
            (vx - vy, 1)
        }
    } else if n == 0x6 {
        (vx / 2, vx % 2)
    } else if n == 0x7 {
        if vy < vx {
            ((256 - (vx - vy) as u16) as u8, 0)
        } else {
            (vy - vx, 1)
        }
    } else {
        let doubled: u16 = vx as u16 * 2;
        if doubled > 255 {
            ((doubled - 256) as u8, vx / 128)
        } else {
            (doubled as u8, vx / 128)
        }
    }
}

/// Carries out the instructions `8xy0` to `8xy7` and `8xyE`.
pub fn opcode_family_0x8000(emulated_chip: &mut Chip8, instruction: u16) -> (result: Result<
    Action,
    Fault,
>)
    ensures
        final(emulated_chip)@ == spec_family_0x8000(old(emulated_chip)@, instruction).machine,
        result == spec_family_0x8000(old(emulated_chip)@, instruction).result,
{
    let fields = decode(instruction);
    let n = fields.n;
    if !(n <= 0x7 || n == 0xE) {
        return Err(Fault::UnknownOpcode);
    }
    let vx = emulated_chip.register(fields.x);
    let vy = emulated_chip.register(fields.y);
    let (value, flag) = arithmetic(vx, vy, n);
    if n <= 0x3 {
        emulated_chip.set_register_to_value(fields.x, value);
    } else if n == 0x6 || n == 0xE {
        emulated_chip.set_register_to_value(FLAG_REGISTER, flag);
        emulated_chip.set_register_to_value(fields.x, value);
    } else {
        emulated_chip.set_register_to_value(fields.x, value);
        emulated_chip.set_register_to_value(FLAG_REGISTER, flag);
    }
    Ok(Action::Continue)
}

/// Carries out `Cxnn` as far as the machine can: it names the register and
/// the mask, and changes nothing.
pub fn opcode_family_0xc000(emulated_chip: &mut Chip8, instruction: u16) -> (result: Result<
    Action,
    Fault,
>)
    ensures
        final(emulated_chip)@ == spec_family_0xc000(old(emulated_chip)@, instruction).machine,
        result == spec_family_0xc000(old(emulated_chip)@, instruction).result,
{
    let fields = decode(instruction);
    Ok(Action::Random { register: fields.x, mask: fields.nn })
}

/// The first address out of range of an access that starts at `start`.
fn out_of_bounds_address(start: u16) -> (address: u16)
    ensures
        address == first_out_of_bounds(start),
{
    if start > MAX_MEMORY_ADDRESS {
        start
    } else {
        MAX_MEMORY_ADDRESS + 1
    }
}

/// Carries out `Dxyn` as far as the machine can: it checks that the sprite
/// lies within memory and says what to draw and where, and changes nothing.
pub fn opcode_family_0xd000(emulated_chip: &mut Chip8, instruction: u16) -> (result: Result<
    Action,
    Fault,
>)
    ensures
        final(emulated_chip)@ == spec_family_0xd000(old(emulated_chip)@, instruction).machine,
        result == spec_family_0xd000(old(emulated_chip)@, instruction).result,
{
    let fields = decode(instruction);
    let address = emulated_chip.index_register();
    if fields.n > 0 && address as usize + fields.n as usize > MEMORY_SIZE {
        return Err(Fault::MemoryOutOfBounds { address: out_of_bounds_address(address) });
    }
    Ok(
        Action::Draw {
            x: emulated_chip.register(fields.x),
            y: emulated_chip.register(fields.y),
            address,
            rows: fields.n,
        },
    )
}

/// Whether the key with the number `key` is down in `keys`.
pub fn key_pressed(keys: u16, key: u8) -> (down: bool)
    ensures
        down == key_is_down(keys, key),
{
    key < 16 && (keys >> key) & 1 == 1
}

/// Carries out `Ex9E` and `ExA1`, given the keys that are down.
pub fn opcode_family_0xe000(emulated_chip: &mut Chip8, instruction: u16, keys: u16) -> (result:
    Result<Action, Fault>)
    ensures
        final(emulated_chip)@ == spec_family_0xe000(
            old(emulated_chip)@,
            instruction,
            keys,
        ).machine,
        result == spec_family_0xe000(old(emulated_chip)@, instruction, keys).result,
{
    let fields = decode(instruction);
    let down = key_pressed(keys, emulated_chip.register(fields.x));
    if fields.nn == 0x9E {
        emulated_chip.skip_next_instruction_if(down);
        Ok(Action::Continue)
    } else if fields.nn == 0xA1 {
        emulated_chip.skip_next_instruction_if(!down);
        Ok(Action::Continue)
    } else {
        Err(Fault::UnknownOpcode)
    }
}

/// Stores `V0` to `Vx` in memory from the index register on.
fn store_registers(emulated_chip: &mut Chip8, x: usize)
    requires
        x < 16,
        index_in_bounds(old(emulated_chip)@, x + 1),
    ensures
        final(emulated_chip)@ == (Machine {
            memory: registers_stored(
                old(emulated_chip)@.memory,
                old(emulated_chip)@.registers,
                old(emulated_chip)@.index_register as int,
                x + 1,
            ),
            ..old(emulated_chip)@
        }),
{
    let start = emulated_chip.index_register() as usize;
    let ghost before = emulated_chip@;
    let mut i: usize = 0;
    assert(before.memory =~= registers_stored(before.memory, before.registers, start as int, 0));
    while i <= x
        invariant
            i <= x + 1,
            x < 16,
            start == before.index_register,
            start + x + 1 <= MEMORY_SIZE,
            before.wf(),
            emulated_chip@ == (Machine {
                memory: registers_stored(before.memory, before.registers, start as int, i as int),
                ..before
            }),
        decreases x + 1 - i,
    {
        let value = emulated_chip.register(i);
        emulated_chip.write_memory(start + i, value);
        assert(emulated_chip@.memory =~= registers_stored(
            before.memory,
            before.registers,
            start as int,
            i + 1,
        ));
        i += 1;
    }
}

/// Loads `V0` to `Vx` from memory from the index register on.
fn load_registers(emulated_chip: &mut Chip8, x: usize)
    requires
        x < 16,
        index_in_bounds(old(emulated_chip)@, x + 1),
    ensures
        final(emulated_chip)@ == (Machine {
            registers: registers_loaded(
                old(emulated_chip)@.registers,
                old(emulated_chip)@.memory,
                old(emulated_chip)@.index_register as int,
                x + 1,
            ),
            ..old(emulated_chip)@
        }),
{
    let start = emulated_chip.index_register() as usize;
    let ghost before = emulated_chip@;
    let mut i: usize = 0;
    assert(before.registers =~= registers_loaded(
        before.registers,
        before.memory,
        start as int,
        0,
    ));
    while i <= x
        invariant
            i <= x + 1,
            x < 16,
            start == before.index_register,
            start + x + 1 <= MEMORY_SIZE,
            before.wf(),
            emulated_chip@ == (Machine {
                registers: registers_loaded(
                    before.registers,
                    before.memory,
                    start as int,
                    i as int,
                ),
                ..before
            }),
        decreases x + 1 - i,
    {
        let value = emulated_chip.memory_at(start + i);
        emulated_chip.set_register_to_value(i, value);
        assert(emulated_chip@.registers =~= registers_loaded(
            before.registers,
            before.memory,
            start as int,
            i + 1,
        ));
        i += 1;
    }
}

/// Carries out the instructions of the family `Fxnn`.
pub fn opcode_family_0xf000(emulated_chip: &mut Chip8, instruction: u16) -> (result: Result<
    Action,
    Fault,
>)
    ensures
        final(emulated_chip)@ == spec_family_0xf000(old(emulated_chip)@, instruction).machine,
        result == spec_family_0xf000(old(emulated_chip)@, instruction).result,
{
    let fields = decode(instruction);
    let x = fields.x;
    let vx = emulated_chip.register(x);
    let index = emulated_chip.index_register();
    if fields.nn == 0x07 {
        let delay = emulated_chip.delay_timer();
        emulated_chip.set_register_to_value(x, delay);
    } else if fields.nn == 0x0A {
        return Ok(Action::WaitForKey { register: x });
    } else if fields.nn == 0x15 {
        emulated_chip.set_delay_timer(vx);
    } else if fields.nn == 0x18 {
        emulated_chip.set_sound_timer(vx);
    } else if fields.nn == 0x1E {
        let sum: u32 = index as u32 + vx as u32;
        let wrapped: u16 = if sum > 0xFFFF {
            (sum - 0x10000) as u16
        } else {
            sum as u16
        };
        emulated_chip.set_index_register(wrapped);
    } else if fields.nn == 0x29 {
        emulated_chip.set_index_register(FONT_START_ADDRESS + FONT_SPRITE_SIZE * (vx % 16) as u16);
    } else if fields.nn == 0x33 {
        if index as usize + 3 > MEMORY_SIZE {
            return Err(Fault::MemoryOutOfBounds { address: out_of_bounds_address(index) });
        }
        emulated_chip.write_memory(index as usize, vx / 100);
        emulated_chip.write_memory(index as usize + 1, (vx / 10) % 10);
        emulated_chip.write_memory(index as usize + 2, vx % 10);
    } else if fields.nn == 0x55 {
        if index as usize + x + 1 > MEMORY_SIZE {
            return Err(Fault::MemoryOutOfBounds { address: out_of_bounds_address(index) });
        }
        store_registers(emulated_chip, x);
    } else if fields.nn == 0x65 {
        if index as usize + x + 1 > MEMORY_SIZE {
            return Err(Fault::MemoryOutOfBounds { address: out_of_bounds_address(index) });
        }
        load_registers(emulated_chip, x);
    } else {
        return Err(Fault::UnknownOpcode);
    }
    Ok(Action::Continue)
}

/// Carries out one instruction word: routes it by its top nibble to the
/// handler of its family.
pub fn execute(emulated_chip: &mut Chip8, instruction: u16, keys: u16) -> (result: Result<
    Action,
    Fault,
>)
    ensures
        final(emulated_chip)@ == spec_execute(old(emulated_chip)@, instruction, keys).machine,
        result == spec_execute(old(emulated_chip)@, instruction, keys).result,
{
    let family = decode(instruction).family;
    match family {
        0x0 => opcode_family_0x0000(emulated_chip, instruction),
        0x1 => {
            opcode_family_0x1000(emulated_chip, instruction);
            Ok(Action::Continue)
        },
        0x2 => opcode_family_0x2000(emulated_chip, instruction),
        0x3 => {
            opcode_family_0x3000(emulated_chip, instruction);
            Ok(Action::Continue)
        },
        0x4 => {
            opcode_family_0x4000(emulated_chip, instruction);
            Ok(Action::Continue)
        },
        0x5 => opcode_family_0x5000(emulated_chip, instruction),
        0x6 => {
            opcode_family_0x6000(emulated_chip, instruction);
            Ok(Action::Continue)
        },
        0x7 => {
            opcode_family_0x7000(emulated_chip, instruction);
            Ok(Action::Continue)
        },
        0x8 => opcode_family_0x8000(emulated_chip, instruction),
        0x9 => opcode_family_0x9000(emulated_chip, instruction),
        0xA => {
            opcode_family_0xa000(emulated_chip, instruction);
            Ok(Action::Continue)
        },
        0xB => {
            opcode_family_0xb000(emulated_chip, instruction);
            Ok(Action::Continue)
        },
        0xC => opcode_family_0xc000(emulated_chip, instruction),
        0xD => opcode_family_0xd000(emulated_chip, instruction),
        0xE => opcode_family_0xe000(emulated_chip, instruction, keys),
        _ => opcode_family_0xf000(emulated_chip, instruction),
    }
}

} // verus!
