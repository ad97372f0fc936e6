//! The interpreter's state and the primitive operations on it.

use vstd::prelude::*;
use crate::loader::{assemble, line_texts, spec_assemble, spec_malformed_lines};
use crate::machine::{
    loaded_memory, Machine, MAX_MEMORY_ADDRESS, MAX_STACK_POINTER, MEMORY_SIZE,
    PROGRAM_CAPACITY, PROGRAM_START_ADDRESS, REGISTER_COUNT, STACK_SIZE,
};

verus! {

/// A CHIP-8 machine: registers, memory, call stack and timers.
pub struct Chip8 {
    general_registers: [u8; 16],
    memory: [u8; 4096],
    stack: [u16; 16],
    index_register: u16,
    program_counter: u16,
    stack_pointer: u8,
    delay_timer: u8,
    sound_timer: u8,
}

/// A condition met while loading that does not stop the load.
#[derive(Clone, Copy, Debug, PartialEq, Eq, Structural)]
pub enum LoadWarning {
    /// The line with this index, counted from zero, is malformed and was
    /// skipped.
    MalformedLine { line: usize },
    /// The program has this many bytes, more than fit between the load
    /// origin and the end of memory; the bytes that fit were loaded.
    RomTooLarge { size: usize },
}

/// The warnings of a load: one for each malformed line, in the order of the
/// lines, then one if the program of `size` bytes is too large.
pub open spec fn load_warnings(malformed_lines: Seq<usize>, size: nat) -> Seq<LoadWarning> {
    let skipped = Seq::new(
        malformed_lines.len(),
        |i: int| LoadWarning::MalformedLine { line: malformed_lines[i] },
    );
    if size > PROGRAM_CAPACITY {
        skipped.push(LoadWarning::RomTooLarge { size: size as usize })
    } else {
        skipped
    }
}

impl View for Chip8 {
    type V = Machine;

    closed spec fn view(&self) -> Machine {
        Machine {
            registers: self.general_registers@,
            memory: self.memory@,
            stack: self.stack@,
            index_register: self.index_register,
            program_counter: self.program_counter,
            stack_pointer: self.stack_pointer,
            delay_timer: self.delay_timer,
            sound_timer: self.sound_timer,
        }
    }
}

impl Chip8 {
    #[verifier::type_invariant]
    spec fn stack_pointer_in_range(&self) -> bool {
        self.stack_pointer <= MAX_STACK_POINTER
    }

    /// Creates a machine in its power-on state.
    pub fn new() -> (chip: Self)
        ensures
            chip@ == Machine::initial(),
            chip@.wf(),
    {
        let chip = Chip8 {
            general_registers: [0; 16],
            memory: [0; 4096],
            stack: [0; 16],
            index_register: 0x00,
            program_counter: PROGRAM_START_ADDRESS,
            stack_pointer: 0x00,
            delay_timer: 0x00,
            sound_timer: 0x00,
        };
        assert(chip@.registers =~= Machine::initial().registers);
        assert(chip@.memory =~= Machine::initial().memory);
        assert(chip@.stack =~= Machine::initial().stack);
        chip
    }

    /// Copies `bytes` into memory from the load origin on and says whether
    /// there were more of them than fit. Those that do not fit are left out;
    /// nothing but memory changes.
    pub fn load_program(&mut self, bytes: &[u8]) -> (too_large: bool)
        ensures
            final(self)@ == (Machine {
                memory: loaded_memory(old(self)@.memory, bytes@),
                ..old(self)@
            }),
            too_large == (bytes@.len() > PROGRAM_CAPACITY),
    {
        proof {
            use_type_invariant(&*self);
        }
        let ghost before = self.memory@;
        let count = if bytes.len() > PROGRAM_CAPACITY {
            PROGRAM_CAPACITY
        } else {
            bytes.len()
        };
        let mut i: usize = 0;
        while i < count
            invariant
                i <= count <= PROGRAM_CAPACITY,
                count <= bytes@.len(),
                self.stack_pointer <= MAX_STACK_POINTER,
                self.memory@ == loaded_memory(before, bytes@.take(i as int)),
                self.general_registers == old(self).general_registers,
                self.stack == old(self).stack,
                self.index_register == old(self).index_register,
                self.program_counter == old(self).program_counter,
                self.stack_pointer == old(self).stack_pointer,
                self.delay_timer == old(self).delay_timer,
                self.sound_timer == old(self).sound_timer,
            decreases count - i,
        {
            let address: usize = PROGRAM_START_ADDRESS as usize + i;
            self.memory[address] = bytes[i];
            assert(self.memory@ =~= loaded_memory(before, bytes@.take(i + 1)));
            i += 1;
        }
        assert(self.memory@ =~= loaded_memory(before, bytes@));
        bytes.len() > PROGRAM_CAPACITY
    }

    /// Loads the program that `source` describes, one instruction per line:
    /// assembles it into bytes and copies them into memory from the load
    /// origin on. Malformed lines are skipped, and a program that is too
    /// large is cut off at the end of memory; the result reports both.
    pub fn load_instructions(&mut self, source: &Vec<String>) -> (warnings: Vec<LoadWarning>)
        ensures
            final(self)@ == (Machine {
                memory: loaded_memory(old(self)@.memory, spec_assemble(line_texts(source@))),
                ..old(self)@
            }),
            warnings@ == load_warnings(
                spec_malformed_lines(line_texts(source@)),
                spec_assemble(line_texts(source@)).len(),
            ),
    {
        let image = assemble(source);
        let too_large = self.load_program(image.bytes.as_slice());
        let mut warnings: Vec<LoadWarning> = Vec::new();
        let mut i: usize = 0;
        while i < image.malformed_lines.len()
            invariant
                i <= image.malformed_lines.len(),
                warnings@ == Seq::new(
                    i as nat,
                    |k: int| LoadWarning::MalformedLine { line: image.malformed_lines@[k] },
                ),
            decreases image.malformed_lines.len() - i,
        {
            warnings.push(LoadWarning::MalformedLine { line: image.malformed_lines[i] });
            assert(warnings@ =~= Seq::new(
                (i + 1) as nat,
                |k: int| LoadWarning::MalformedLine { line: image.malformed_lines@[k] },
            ));
            i += 1;
        }
        if too_large {
            warnings.push(LoadWarning::RomTooLarge { size: image.bytes.len() });
        }
        warnings
    }

    /// Reads one general register.
    pub fn register(&self, index: usize) -> (value: u8)
        requires
            index < REGISTER_COUNT,
        ensures
            value == self@.registers[index as int],
            self@.wf(),
    {
        proof {
            use_type_invariant(self);
        }
        self.general_registers[index]
    }

    /// Writes one general register and leaves everything else as it was.
    pub fn set_register_to_value(&mut self, target_register: usize, target_value: u8)
        requires
            target_register < REGISTER_COUNT,
        ensures
            final(self)@ == (Machine {
                registers: old(self)@.registers.update(target_register as int, target_value),
                ..old(self)@
            }),
    {
        proof {
            use_type_invariant(&*self);
        }
        self.general_registers[target_register] = target_value;
    }

    /// Reads the byte at `address`.
    pub fn memory_at(&self, address: usize) -> (value: u8)
        requires
            address < MEMORY_SIZE,
        ensures
            value == self@.memory[address as int],
    {
        self.memory[address]
    }

    /// Writes the byte at `address` and leaves everything else as it was.
    pub fn write_memory(&mut self, address: usize, value: u8)
        requires
            address < MEMORY_SIZE,
        ensures
            final(self)@ == (Machine {
                memory: old(self)@.memory.update(address as int, value),
                ..old(self)@
            }),
    {
        proof {
            use_type_invariant(&*self);
        }
        self.memory[address] = value;
    }

    /// The index register.
    pub fn index_register(&self) -> (value: u16)
        ensures
            value == self@.index_register,
            self@.wf(),
    {
        proof {
            use_type_invariant(self);
        }
        self.index_register
    }

    /// Sets the index register and leaves everything else as it was.
    pub fn set_index_register(&mut self, value: u16)
        ensures
            final(self)@ == (Machine { index_register: value, ..old(self)@ }),
    {
        proof {
            use_type_invariant(&*self);
        }
        self.index_register = value;
    }

    /// The program counter.
    pub fn program_counter(&self) -> (value: u16)
        ensures
            value == self@.program_counter,
            self@.wf(),
    {
        proof {
            use_type_invariant(self);
        }
        self.program_counter
    }

    /// Sets the program counter and leaves everything else as it was.
    pub fn set_program_counter(&mut self, value: u16)
        ensures
            final(self)@ == (Machine { program_counter: value, ..old(self)@ }),
    {
        proof {
            use_type_invariant(&*self);
        }
        self.program_counter = value;
    }

    /// Moves the program counter past one more instruction where `condition`
    /// holds; leaves the machine as it is where it does not.
    pub fn skip_next_instruction_if(&mut self, condition: bool)
        ensures
            final(self)@ == old(self)@.skip_if(condition),
    {
        proof {
            use_type_invariant(&*self);
        }
        if condition {
            self.program_counter = if self.program_counter >= 0xFFFE {
                self.program_counter - 0xFFFE
            } else {
                self.program_counter + 2
            };
        }
    }

    /// The stack pointer: the number of return addresses on the call stack.
    /// It never exceeds its maximum.
    pub fn stack_pointer(&self) -> (value: u8)
        ensures
            value == self@.stack_pointer,
            self@.wf(),
    {
        proof {
            use_type_invariant(self);
        }
        self.stack_pointer
    }

    /// Reads the stack slot `slot`.
    pub fn stack_at(&self, slot: usize) -> (value: u16)
        requires
            slot < STACK_SIZE,
        ensures
            value == self@.stack[slot as int],
    {
        self.stack[slot]
    }

    /// Puts `address` on the call stack, unless the stack is full: then
    /// nothing changes and the result is `false`.
    pub fn push_return_address(&mut self, address: u16) -> (pushed: bool)
        ensures
            pushed == (old(self)@.stack_pointer < MAX_STACK_POINTER),
            pushed ==> final(self)@ == (Machine {
                stack: old(self)@.stack.update(old(self)@.stack_pointer as int, address),
                stack_pointer: (old(self)@.stack_pointer + 1) as u8,
                ..old(self)@
            }),
            !pushed ==> final(self)@ == old(self)@,
            final(self)@.wf(),
    {
        proof {
            use_type_invariant(&*self);
        }
        if self.stack_pointer >= MAX_STACK_POINTER {
            return false;
        }
        self.stack[self.stack_pointer as usize] = address;
        self.stack_pointer += 1;
        true
    }

    /// Takes the newest return address off the call stack, unless the stack
    /// is empty: then nothing changes and the result is `None`.
    pub fn pop_return_address(&mut self) -> (address: Option<u16>)
        ensures
            address is Some <==> old(self)@.stack_pointer > 0,
            address matches Some(a) ==> {
                &&& a == old(self)@.stack[old(self)@.stack_pointer - 1]
                &&& final(self)@ == (Machine {
                    stack_pointer: (old(self)@.stack_pointer - 1) as u8,
                    ..old(self)@
                })
            },
            address is None ==> final(self)@ == old(self)@,
            final(self)@.wf(),
    {
        proof {
            use_type_invariant(&*self);
        }
        if self.stack_pointer == 0 {
            return None;
        }
        self.stack_pointer -= 1;
        Some(self.stack[self.stack_pointer as usize])
    }

    /// The delay timer.
    pub fn delay_timer(&self) -> (value: u8)
        ensures
            value == self@.delay_timer,
    {
        self.delay_timer
    }

    /// Sets the delay timer and leaves everything else as it was.
    pub fn set_delay_timer(&mut self, value: u8)
        ensures
            final(self)@ == (Machine { delay_timer: value, ..old(self)@ }),
    {
        proof {
            use_type_invariant(&*self);
        }
        self.delay_timer = value;
    }

    /// The sound timer.
    pub fn sound_timer(&self) -> (value: u8)
        ensures
            value == self@.sound_timer,
    {
        self.sound_timer
    }

    /// Sets the sound timer and leaves everything else as it was.
    pub fn set_sound_timer(&mut self, value: u8)
        ensures
            final(self)@ == (Machine { sound_timer: value, ..old(self)@ }),
    {
        proof {
            use_type_invariant(&*self);
        }
        self.sound_timer = value;
    }

    /// One tick of the outside clock: each timer that is not zero goes down
    /// by one. Nothing else changes.
    pub fn tick_timers(&mut self)
        ensures
            final(self)@ == (Machine {
                delay_timer: if old(self)@.delay_timer > 0 {
                    (old(self)@.delay_timer - 1) as u8
                } else {
                    0
                },
                sound_timer: if old(self)@.sound_timer > 0 {
                    (old(self)@.sound_timer - 1) as u8
                } else {
                    0
                },
                ..old(self)@
            }),
    {
        proof {
            use_type_invariant(&*self);
        }
        if self.delay_timer > 0 {
            self.delay_timer -= 1;
        }
        if self.sound_timer > 0 {
            self.sound_timer -= 1;
        }
    }

    /// Reads the two bytes at the program counter as one big-endian
    /// instruction word and moves the program counter past them.
    pub fn fetch_instruction(&mut self) -> (instruction: u16)
        requires
            old(self)@.program_counter < MAX_MEMORY_ADDRESS,
        ensures
            instruction == old(self)@.memory[old(self)@.program_counter as int] * 256
                + old(self)@.memory[old(self)@.program_counter + 1],
            final(self)@.program_counter == old(self)@.program_counter + 2,
            final(self)@ == (Machine {
                program_counter: (old(self)@.program_counter + 2) as u16,
                ..old(self)@
            }),
    {
        proof {
            use_type_invariant(&*self);
        }
        let upper_byte = self.memory[self.program_counter as usize];
        let lower_byte = self.memory[self.program_counter as usize + 1];
        self.program_counter += 2;
        let word: u16 = ((upper_byte as u16) << 8) | lower_byte as u16;
        assert(((upper_byte as u16) << 8) | lower_byte as u16 == upper_byte * 256 + lower_byte)
            by (bit_vector);
        word
    }
}

/// A program that is too large is cut off at the end of memory and reported:
/// every address from the load origin to the last one holds the byte of the
/// program that belongs there, the addresses below the load origin keep what
/// they held, the bytes that do not fit change nothing, and the last warning
/// of the load says that the program was too large.
pub proof fn lemma_oversized_program_is_cut_off(
    memory: Seq<u8>,
    bytes: Seq<u8>,
    malformed_lines: Seq<usize>,
)
    requires
        memory.len() == MEMORY_SIZE,
        bytes.len() > PROGRAM_CAPACITY,
    ensures
        loaded_memory(memory, bytes) == loaded_memory(memory, bytes.take(PROGRAM_CAPACITY as int)),
        forall|address: int|
            PROGRAM_START_ADDRESS <= address <= MAX_MEMORY_ADDRESS ==> #[trigger] loaded_memory(
                memory,
                bytes,
            )[address] == bytes[address - PROGRAM_START_ADDRESS],
        forall|address: int|
            0 <= address < PROGRAM_START_ADDRESS ==> #[trigger] loaded_memory(
                memory,
                bytes,
            )[address] == memory[address],
        load_warnings(malformed_lines, bytes.len()).last() == (LoadWarning::RomTooLarge {
            size: bytes.len() as usize,
        }),
{
    assert(loaded_memory(memory, bytes) =~= loaded_memory(
        memory,
        bytes.take(PROGRAM_CAPACITY as int),
    ));
}

} // verus!
