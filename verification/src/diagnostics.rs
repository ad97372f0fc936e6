//! Dumps of the machine's state as text, for debugging.

use vstd::prelude::*;
use vstd::string::StringExecFns;
use crate::chip8::Chip8;
use crate::machine::{loaded_memory, Machine, MEMORY_SIZE, PROGRAM_START_ADDRESS, REGISTER_COUNT};

verus! {

/// The upper-case hexadecimal digit for `digit`, which is 0 to 15.
pub open spec fn hex_digit_char(digit: int) -> char {
    if digit < 10 {
        ('0' as int + digit) as char
    } else {
        ('A' as int + digit - 10) as char
    }
}

/// `value` written with `width` upper-case hexadecimal digits, with zeros in
/// front where it has fewer. Digits of `value` beyond `width` are left out.
pub open spec fn hex_text(value: int, width: nat) -> Seq<char>
    decreases width,
{
    if width == 0 {
        Seq::empty()
    } else {
        hex_text(value / 16, (width - 1) as nat).push(hex_digit_char(value % 16))
    }
}

/// One line of the memory dump: `0xAAAA : 0xVV` and a line feed, the address
/// with four digits and the value with two.
pub open spec fn memory_line(address: int, value: u8) -> Seq<char> {
    seq!['0', 'x'] + hex_text(address, 4) + seq![' ', ':', ' ', '0', 'x'] + hex_text(value as int, 2)
        + seq!['\n']
}

/// The lines of the memory dump for the addresses below `count`, in
/// ascending order.
pub open spec fn memory_dump(memory: Seq<u8>, count: nat) -> Seq<char>
    decreases count,
{
    if count == 0 {
        Seq::empty()
    } else {
        memory_dump(memory, (count - 1) as nat) + memory_line(count - 1, memory[count - 1])
    }
}

/// The name of the general register `index`: `V0` to `VF`.
pub open spec fn register_name(index: int) -> Seq<char> {
    seq!['V', hex_digit_char(index)]
}

/// One line of the register dump: the register's name, ` : 0x`, its value
/// with four digits and a line feed.
pub open spec fn register_line(index: int, value: u8) -> Seq<char> {
    register_name(index) + seq![' ', ':', ' ', '0', 'x'] + hex_text(value as int, 4) + seq!['\n']
}

/// The lines of the register dump for the registers below `count`, in
/// ascending order.
pub open spec fn register_lines(registers: Seq<u8>, count: nat) -> Seq<char>
    decreases count,
{
    if count == 0 {
        Seq::empty()
    } else {
        register_lines(registers, (count - 1) as nat) + register_line(
            count - 1,
            registers[count - 1],
        )
    }
}

/// The line that opens and closes a block of the register dump: thirty
/// asterisks and a line feed.
pub open spec fn block_marker() -> Seq<char> {
    Seq::new(30, |i: int| '*').push('\n')
}

/// One block of the register dump: the marker, the sixteen registers, the
/// marker.
pub open spec fn register_dump(registers: Seq<u8>) -> Seq<char> {
    block_marker() + register_lines(registers, REGISTER_COUNT as nat) + block_marker()
}

fn hex_digit_text(digit: u8) -> (text: &'static str)
    requires
        digit < 16,
    ensures
        text@ == seq![hex_digit_char(digit as int)],
{
    proof {
        reveal_strlit("0");
        reveal_strlit("1");
        reveal_strlit("2");
        reveal_strlit("3");
        reveal_strlit("4");
        reveal_strlit("5");
        reveal_strlit("6");
        reveal_strlit("7");
        reveal_strlit("8");
        reveal_strlit("9");
        reveal_strlit("A");
        reveal_strlit("B");
        reveal_strlit("C");
        reveal_strlit("D");
        reveal_strlit("E");
        reveal_strlit("F");
    }
    let text = match digit {
        0 => "0",
        1 => "1",
        2 => "2",
        3 => "3",
        4 => "4",
        5 => "5",
        6 => "6",
        7 => "7",
        8 => "8",
        9 => "9",
        10 => "A",
        11 => "B",
        12 => "C",
        13 => "D",
        14 => "E",
        _ => "F",
    };
    assert(text@ =~= seq![hex_digit_char(digit as int)]);
    text
}

/// The digits of a value written with two and with four hexadecimal digits.
proof fn lemma_hex_text_digits(value: int)
    requires
        0 <= value,
    ensures
        hex_text(value, 2) == seq![hex_digit_char((value / 16) % 16), hex_digit_char(value % 16)],
        hex_text(value, 4) == seq![
            hex_digit_char((value / 4096) % 16),
            hex_digit_char((value / 256) % 16),
            hex_digit_char((value / 16) % 16),
            hex_digit_char(value % 16),
        ],
{
    let v1 = value / 16;
    let v2 = v1 / 16;
    let v3 = v2 / 16;
    assert(v2 == value / 256);
    assert(v3 == value / 4096);
    assert(hex_text(v2, 0) =~= Seq::<char>::empty());
    assert(hex_text(v1, 1) =~= seq![hex_digit_char(v1 % 16)]);
    assert(hex_text(value, 2) =~= seq![hex_digit_char(v1 % 16), hex_digit_char(value % 16)]);
    assert(hex_text(v3 / 16, 0) =~= Seq::<char>::empty());
    assert(hex_text(v3, 1) =~= seq![hex_digit_char(v3 % 16)]);
    assert(hex_text(v2, 2) =~= seq![hex_digit_char(v3 % 16), hex_digit_char(v2 % 16)]);
    assert(hex_text(v1, 3) =~= seq![
        hex_digit_char(v3 % 16),
        hex_digit_char(v2 % 16),
        hex_digit_char(v1 % 16),
    ]);
    assert(hex_text(value, 4) =~= seq![
        hex_digit_char(v3 % 16),
        hex_digit_char(v2 % 16),
        hex_digit_char(v1 % 16),
        hex_digit_char(value % 16),
    ]);
}

/// Appends `value` to `text` as two hexadecimal digits.
fn append_hex_byte(text: &mut String, value: u8)
    ensures
        final(text)@ == old(text)@ + hex_text(value as int, 2),
{
    text.append(hex_digit_text(value / 16));
    text.append(hex_digit_text(value % 16));
    proof {
        lemma_hex_text_digits(value as int);
    }
    assert(text@ =~= old(text)@ + hex_text(value as int, 2));
}

/// Appends `value` to `text` as four hexadecimal digits.
fn append_hex_word(text: &mut String, value: u16)
    ensures
        final(text)@ == old(text)@ + hex_text(value as int, 4),
{
    text.append(hex_digit_text((value / 4096) as u8));
    text.append(hex_digit_text(((value / 256) % 16) as u8));
    text.append(hex_digit_text(((value / 16) % 16) as u8));
    text.append(hex_digit_text((value % 16) as u8));
    proof {
        lemma_hex_text_digits(value as int);
    }
    assert(text@ =~= old(text)@ + hex_text(value as int, 4));
}

/// Appends `0x` to `text`.
fn append_hex_prefix(text: &mut String)
    ensures
        final(text)@ == old(text)@ + seq!['0', 'x'],
{
    proof {
        reveal_strlit("0x");
    }
    let prefix = "0x";
    assert(prefix@ =~= seq!['0', 'x']);
    text.append(prefix);
}

/// Appends ` : 0x`, which stands between a name and a value, to `text`.
fn append_separator(text: &mut String)
    ensures
        final(text)@ == old(text)@ + seq![' ', ':', ' ', '0', 'x'],
{
    proof {
        reveal_strlit(" : 0x");
    }
    let separator = " : 0x";
    assert(separator@ =~= seq![' ', ':', ' ', '0', 'x']);
    text.append(separator);
}

/// Appends a line feed to `text`.
fn append_line_end(text: &mut String)
    ensures
        final(text)@ == old(text)@ + seq!['\n'],
{
    proof {
        reveal_strlit("\n");
    }
    let line_end = "\n";
    assert(line_end@ =~= seq!['\n']);
    text.append(line_end);
}

/// The name of the general register `index`.
pub fn register_label(index: usize) -> (name: String)
    requires
        index < REGISTER_COUNT,
    ensures
        name@ == register_name(index as int),
{
    proof {
        reveal_strlit("V");
    }
    let mut name = String::new();
    name.append("V");
    name.append(hex_digit_text(index as u8));
    assert(name@ =~= register_name(index as int));
    name
}

/// Appends the line that opens and closes a block of the register dump.
fn append_block_marker(text: &mut String)
    ensures
        final(text)@ == old(text)@ + block_marker(),
{
    proof {
        reveal_strlit("******************************\n");
    }
    let marker = "******************************\n";
    assert(marker@ =~= block_marker());
    text.append(marker);
}

impl Chip8 {
    /// The memory dump: one line for each address, in ascending order, each
    /// `0xAAAA : 0xVV` with the address and the byte it holds.
    pub fn dump_memory_state(&self) -> (text: String)
        ensures
            text@ == memory_dump(self@.memory, MEMORY_SIZE as nat),
    {
        let mut text = String::new();
        let mut address: usize = 0;
        assert(text@ =~= memory_dump(self@.memory, 0));
        while address < MEMORY_SIZE
            invariant
                address <= MEMORY_SIZE,
                text@ == memory_dump(self@.memory, address as nat),
            decreases MEMORY_SIZE - address,
        {
            let ghost before = text@;
            let value = self.memory_at(address);
            append_hex_prefix(&mut text);
            append_hex_word(&mut text, address as u16);
            append_separator(&mut text);
            append_hex_byte(&mut text, value);
            append_line_end(&mut text);
            assert(text@ =~= before + memory_line(address as int, value));
            address += 1;
        }
        text
    }

    /// One block of the register dump: a line of thirty asterisks, one line
    /// for each general register from `V0` to `VF` with its name and value,
    /// and a line of thirty asterisks.
    pub fn dump_register_state(&self) -> (text: String)
        ensures
            text@ == register_dump(self@.registers),
    {
        let mut text = String::new();
        append_block_marker(&mut text);
        let mut index: usize = 0;
        assert(text@ =~= block_marker() + register_lines(self@.registers, 0));
        while index < REGISTER_COUNT
            invariant
                index <= REGISTER_COUNT,
                text@ == block_marker() + register_lines(self@.registers, index as nat),
            decreases REGISTER_COUNT - index,
        {
            let ghost before = text@;
            let value = self.register(index);
            let name = register_label(index);
            text.append(name.as_str());
            append_separator(&mut text);
            append_hex_word(&mut text, value as u16);
            append_line_end(&mut text);
            assert(text@ =~= before + register_line(index as int, value));
            assert(text@ =~= block_marker() + register_lines(self@.registers, (index + 1) as nat));
            index += 1;
        }
        append_block_marker(&mut text);
        text
    }
}

/// How a dump is to be written to its artifact.
#[derive(Clone, Copy, Debug, PartialEq, Eq, Structural)]
pub enum WriteMode {
    /// Empty the artifact, then write.
    Truncate,
    /// Write behind what the artifact holds.
    Append,
}

/// The mode of the next register dump of a writer that has or has not
/// written one before.
pub open spec fn register_dump_mode_after(initialized: bool) -> WriteMode {
    if initialized {
        WriteMode::Append
    } else {
        WriteMode::Truncate
    }
}

/// What an artifact holds once `text` has been written to it in `mode`.
pub open spec fn written(artifact: Seq<char>, mode: WriteMode, text: Seq<char>) -> Seq<char> {
    match mode {
        WriteMode::Truncate => text,
        WriteMode::Append => artifact + text,
    }
}

/// Remembers whether the register dump has been written before, so that the
/// first dump starts the artifact afresh and every later one adds to it. Each
/// writer remembers for itself; two writers for one artifact would each
/// empty it once.
pub struct DiagnosticsWriter {
    register_dump_initialized: bool,
}

impl DiagnosticsWriter {
    /// Whether this writer has written a register dump.
    pub closed spec fn initialized(&self) -> bool {
        self.register_dump_initialized
    }

    /// A writer that has not written anything.
    pub fn new() -> (writer: Self)
        ensures
            !writer.initialized(),
    {
        DiagnosticsWriter { register_dump_initialized: false }
    }

    /// Whether this writer has written a register dump.
    pub fn is_initialized(&self) -> (initialized: bool)
        ensures
            initialized == self.initialized(),
    {
        self.register_dump_initialized
    }

    /// Says how the next register dump is to be written, and counts it as
    /// written: the first is to empty the artifact, every later one is to be
    /// appended.
    pub fn register_dump_mode(&mut self) -> (mode: WriteMode)
        ensures
            mode == register_dump_mode_after(old(self).initialized()),
            final(self).initialized(),
    {
        let mode = if self.register_dump_initialized {
            WriteMode::Append
        } else {
            WriteMode::Truncate
        };
        self.register_dump_initialized = true;
        mode
    }

    /// Writes the register dump of `chip` to `artifact`, which stands for
    /// the contents of the dump file: the first dump of this writer replaces
    /// what the artifact holds, every later one is added behind it.
    pub fn write_register_dump(&mut self, chip: &Chip8, artifact: &mut String)
        ensures
            final(artifact)@ == written(
                old(artifact)@,
                register_dump_mode_after(old(self).initialized()),
                register_dump(chip@.registers),
            ),
            final(self).initialized(),
    {
        let mode = self.register_dump_mode();
        let block = chip.dump_register_state();
        write_text(artifact, mode, block.as_str());
    }
}

/// Writes `text` to `artifact` in `mode`.
pub fn write_text(artifact: &mut String, mode: WriteMode, text: &str)
    ensures
        final(artifact)@ == written(old(artifact)@, mode, text@),
{
    match mode {
        WriteMode::Truncate => {
            *artifact = String::from_str(text);
        },
        WriteMode::Append => {
            artifact.append(text);
        },
    }
}

/// Of two register dumps that one writer makes, the first empties the
/// artifact and the second is appended: after the first the artifact holds
/// exactly the first block, whatever it held before, and after the second it
/// holds the first block, unchanged, followed by the second.
pub proof fn lemma_first_dump_truncates_second_appends(
    stale: Seq<char>,
    first: Seq<char>,
    second: Seq<char>,
)
    ensures
        written(stale, register_dump_mode_after(false), first) == first,
        written(
            written(stale, register_dump_mode_after(false), first),
            register_dump_mode_after(true),
            second,
        ) == first + second,
{
}

/// Number of characters of one line of the memory dump, line feed included.
pub const MEMORY_LINE_LENGTH: usize = 14;

/// The memory dump of `count` addresses has one line of fixed length for
/// each, and the line of `address` stands at its place in the order of the
/// addresses and shows the byte that memory holds there.
pub proof fn lemma_memory_dump_line(memory: Seq<u8>, count: nat, address: int)
    requires
        0 <= address < count,
    ensures
        memory_dump(memory, count).len() == MEMORY_LINE_LENGTH * count,
        memory_dump(memory, count).subrange(
            MEMORY_LINE_LENGTH * address,
            MEMORY_LINE_LENGTH * address + MEMORY_LINE_LENGTH,
        ) == memory_line(address, memory[address]),
    decreases count,
{
    let last = count - 1;
    let line = memory_line(last, memory[last]);
    lemma_hex_text_digits(last);
    lemma_hex_text_digits(memory[last] as int);
    assert(line.len() == MEMORY_LINE_LENGTH);
    let rest = memory_dump(memory, last as nat);
    if last > 0 {
        lemma_memory_dump_line(memory, last as nat, 0);
    }
    assert(rest.len() == MEMORY_LINE_LENGTH * last);
    if address == last {
        assert((rest + line).subrange(
            MEMORY_LINE_LENGTH * address,
            MEMORY_LINE_LENGTH * address + MEMORY_LINE_LENGTH,
        ) =~= line);
    } else {
        lemma_memory_dump_line(memory, last as nat, address);
        assert((rest + line).subrange(
            MEMORY_LINE_LENGTH * address,
            MEMORY_LINE_LENGTH * address + MEMORY_LINE_LENGTH,
        ) =~= rest.subrange(
            MEMORY_LINE_LENGTH * address,
            MEMORY_LINE_LENGTH * address + MEMORY_LINE_LENGTH,
        ));
    }
}

/// Load, then dump: in the memory of a fresh machine into which `bytes` were
/// loaded, each address from the load origin on holds the byte loaded there
/// and every other address holds zero, and the line of the memory dump for
/// an address shows just that.
pub proof fn lemma_load_then_dump(bytes: Seq<u8>, address: int)
    requires
        0 <= address < MEMORY_SIZE,
    ensures
        ({
            let memory = loaded_memory(Machine::initial().memory, bytes);
            let expected = if PROGRAM_START_ADDRESS <= address < PROGRAM_START_ADDRESS
                + bytes.len() {
                bytes[address - PROGRAM_START_ADDRESS]
            } else {
                0u8
            };
            &&& memory[address] == expected
            &&& memory_dump(memory, MEMORY_SIZE as nat).subrange(
                MEMORY_LINE_LENGTH * address,
                MEMORY_LINE_LENGTH * address + MEMORY_LINE_LENGTH,
            ) == memory_line(address, expected)
        }),
{
    let memory = loaded_memory(Machine::initial().memory, bytes);
    lemma_memory_dump_line(memory, MEMORY_SIZE as nat, address);
}

} // verus!
