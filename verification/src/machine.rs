//! The mathematical model of the machine, over which every contract of the
//! interpreter is stated.

use vstd::prelude::*;

verus! {

/// Number of general registers, `V0` to `VF`.
pub const REGISTER_COUNT: usize = 16;

/// Number of addressable bytes.
pub const MEMORY_SIZE: usize = 4096;

/// Number of slots of the call stack.
pub const STACK_SIZE: usize = 16;

/// Address at which programs are loaded and at which execution starts.
pub const PROGRAM_START_ADDRESS: u16 = 0x200;

/// Highest valid memory address.
pub const MAX_MEMORY_ADDRESS: u16 = 0xFFF;

/// Highest value of the stack pointer; a stack whose pointer stands here is full.
pub const MAX_STACK_POINTER: u8 = 15;

/// Index of `VF`, the register that doubles as carry, borrow and collision flag.
pub const FLAG_REGISTER: usize = 15;

/// Ticks per second at which the outside clock counts the timers down.
pub const DELAY_TIMER_FREQUENCY_HZ: u8 = 60;

/// Number of bytes between the load origin and the end of memory: the size
/// of the largest program that fits.
pub const PROGRAM_CAPACITY: usize = 0xE00;

/// Address of the sprite of the digit 0. The sprites of the sixteen digits
/// stand one after the other in the reserved area below the load origin.
pub const FONT_START_ADDRESS: u16 = 0x050;

/// Number of bytes of the sprite of one digit.
pub const FONT_SPRITE_SIZE: u16 = 5;

/// The first address behind the end of memory that an access starting at
/// `start` and going upwards touches.
pub open spec fn first_out_of_bounds(start: u16) -> u16 {
    if start > MAX_MEMORY_ADDRESS {
        start
    } else {
        (MAX_MEMORY_ADDRESS + 1) as u16
    }
}

/// What `memory` holds once the first `count` of `registers` have been
/// stored in it from `start` on.
pub open spec fn registers_stored(
    memory: Seq<u8>,
    registers: Seq<u8>,
    start: int,
    count: int,
) -> Seq<u8> {
    Seq::new(
        memory.len(),
        |address: int|
            if start <= address < start + count {
                registers[address - start]
            } else {
                memory[address]
            },
    )
}

/// What `registers` hold once the first `count` of them have been loaded
/// from `memory` from `start` on.
pub open spec fn registers_loaded(
    registers: Seq<u8>,
    memory: Seq<u8>,
    start: int,
    count: int,
) -> Seq<u8> {
    Seq::new(
        registers.len(),
        |index: int|
            if index < count {
                memory[start + index]
            } else {
                registers[index]
            },
    )
}

/// Whether the key with the number `key` is down in `keys`, which holds one
/// bit for each of the sixteen keys, bit 0 for key 0. A number above 15 names
/// no key.
pub open spec fn key_is_down(keys: u16, key: u8) -> bool {
    key < 16 && (keys >> key) & 1 == 1
}

/// What `memory` holds once `bytes` have been copied into it from the load
/// origin on. Bytes that would fall behind the last address are left out.
pub open spec fn loaded_memory(memory: Seq<u8>, bytes: Seq<u8>) -> Seq<u8> {
    Seq::new(
        memory.len(),
        |address: int|
            if PROGRAM_START_ADDRESS <= address < PROGRAM_START_ADDRESS + bytes.len() {
                bytes[address - PROGRAM_START_ADDRESS]
            } else {
                memory[address]
            },
    )
}

/// The complete state of the machine as plain mathematical values.
pub struct Machine {
    /// The general registers `V0` to `VF`.
    pub registers: Seq<u8>,
    /// The memory, one byte per address.
    pub memory: Seq<u8>,
    /// The slots of the call stack; those below `stack_pointer` are in use.
    pub stack: Seq<u16>,
    /// The index register.
    pub index_register: u16,
    /// The address of the next instruction to fetch.
    pub program_counter: u16,
    /// The index of the next free stack slot.
    pub stack_pointer: u8,
    /// The delay timer.
    pub delay_timer: u8,
    /// The sound timer.
    pub sound_timer: u8,
}

impl Machine {
    /// The shape every machine state has: the three stores have their fixed
    /// sizes and the stack pointer does not exceed its maximum.
    pub open spec fn wf(self) -> bool {
        &&& self.registers.len() == REGISTER_COUNT
        &&& self.memory.len() == MEMORY_SIZE
        &&& self.stack.len() == STACK_SIZE
        &&& self.stack_pointer <= MAX_STACK_POINTER
    }

    /// This state with register `index` holding `value`.
    pub open spec fn with_register(self, index: int, value: u8) -> Machine {
        Machine { registers: self.registers.update(index, value), ..self }
    }

    /// This state with the program counter at `address`.
    pub open spec fn with_program_counter(self, address: u16) -> Machine {
        Machine { program_counter: address, ..self }
    }

    /// This state with the program counter moved past one more instruction
    /// where `condition` holds, and unchanged where it does not. The counter
    /// has sixteen bits and wraps round at their end.
    pub open spec fn skip_if(self, condition: bool) -> Machine {
        if condition {
            Machine { program_counter: ((self.program_counter + 2) % 0x10000) as u16, ..self }
        } else {
            self
        }
    }

    /// The state at power-on: everything zero, the program counter at the
    /// load origin.
    pub open spec fn initial() -> Machine {
        Machine {
            registers: Seq::new(REGISTER_COUNT as nat, |i: int| 0u8),
            memory: Seq::new(MEMORY_SIZE as nat, |i: int| 0u8),
            stack: Seq::new(STACK_SIZE as nat, |i: int| 0u16),
            index_register: 0,
            program_counter: PROGRAM_START_ADDRESS,
            stack_pointer: 0,
            delay_timer: 0,
            sound_timer: 0,
        }
    }
}

} // verus!
