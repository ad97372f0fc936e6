//! The loader's text format: one instruction per line, written in
//! hexadecimal, with an optional `0x` in front and an optional comment
//! after a `$`.

use vstd::prelude::*;

verus! {

/// Whether `c` is white space, that is, one of the code points with the
/// Unicode property `White_Space`.
pub open spec fn is_whitespace(c: char) -> bool {
    let code = c as u32;
    ||| 0x09 <= code <= 0x0D
    ||| code == 0x20
    ||| code == 0x85
    ||| code == 0xA0
    ||| code == 0x1680
    ||| 0x2000 <= code <= 0x200A
    ||| code == 0x2028
    ||| code == 0x2029
    ||| code == 0x202F
    ||| code == 0x205F
    ||| code == 0x3000
}

/// Whether `c` is one of `0`-`9`, `a`-`f`, `A`-`F`.
pub open spec fn is_hex_digit(c: char) -> bool {
    ||| '0' <= c <= '9'
    ||| 'a' <= c <= 'f'
    ||| 'A' <= c <= 'F'
}

/// The number that the hexadecimal digit `c` stands for.
pub open spec fn hex_digit_value(c: char) -> int
    recommends
        is_hex_digit(c),
{
    if '0' <= c <= '9' {
        c as int - '0' as int
    } else if 'a' <= c <= 'f' {
        c as int - 'a' as int + 10
    } else {
        c as int - 'A' as int + 10
    }
}

/// The index of the first `$` of `line` at or after `from`, or the length of
/// `line` where there is none: the place where the comment starts.
pub open spec fn comment_start(line: Seq<char>, from: int) -> int
    decreases line.len() - from,
{
    if 0 <= from < line.len() && line[from] != '$' {
        comment_start(line, from + 1)
    } else {
        from
    }
}

/// The index of the first character of `line` in `lo..hi` that is not white
/// space, or `hi` where all are.
pub open spec fn trim_start(line: Seq<char>, lo: int, hi: int) -> int
    decreases hi - lo,
{
    if 0 <= lo < hi <= line.len() && is_whitespace(line[lo]) {
        trim_start(line, lo + 1, hi)
    } else {
        lo
    }
}

/// The index just behind the last character of `line` in `lo..hi` that is not
/// white space, or `lo` where all are.
pub open spec fn trim_end(line: Seq<char>, lo: int, hi: int) -> int
    decreases hi - lo,
{
    if 0 <= lo < hi <= line.len() && is_whitespace(line[hi - 1]) {
        trim_end(line, lo, hi - 1)
    } else {
        hi
    }
}

/// The part of `line` that counts: what stands before the first `$`, without
/// the white space around it.
pub open spec fn significant_text(line: Seq<char>) -> Seq<char> {
    let end = comment_start(line, 0);
    let lo = trim_start(line, 0, end);
    let hi = trim_end(line, lo, end);
    line.subrange(lo, hi)
}

/// Whether `text` begins with `0x`.
pub open spec fn has_hex_prefix(text: Seq<char>) -> bool {
    text.len() >= 2 && text[0] == '0' && text[1] == 'x'
}

/// `text` without the `0x` in front of it, if it has one.
pub open spec fn digits_of(text: Seq<char>) -> Seq<char> {
    if has_hex_prefix(text) {
        text.skip(2)
    } else {
        text
    }
}

/// Whether every character of `digits` is a hexadecimal digit.
pub open spec fn all_hex_digits(digits: Seq<char>) -> bool {
    forall|i: int| 0 <= i < digits.len() ==> is_hex_digit(#[trigger] digits[i])
}

/// The number that `digits` denotes in base sixteen, first digit most
/// significant.
pub open spec fn hex_value(digits: Seq<char>) -> int
    decreases digits.len(),
{
    if digits.len() == 0 {
        0
    } else {
        16 * hex_value(digits.drop_last()) + hex_digit_value(digits.last())
    }
}

/// What one line of a program source says.
#[derive(Clone, Copy, Debug, PartialEq, Eq, Structural)]
pub enum ParsedLine {
    /// Nothing but white space stands before the comment.
    Blank,
    /// The text is not one to four hexadecimal digits; the loader skips it.
    Malformed,
    /// The text denotes this instruction word.
    Instruction(u16),
}

/// The meaning of one source line: its significant text, less an optional
/// `0x`, read as one to four hexadecimal digits.
pub open spec fn spec_parse_line(line: Seq<char>) -> ParsedLine {
    let text = significant_text(line);
    let digits = digits_of(text);
    if text.len() == 0 {
        ParsedLine::Blank
    } else if 1 <= digits.len() <= 4 && all_hex_digits(digits) {
        ParsedLine::Instruction(hex_value(digits) as u16)
    } else {
        ParsedLine::Malformed
    }
}

/// The two bytes of an instruction word, the more significant one first.
pub open spec fn instruction_bytes(word: u16) -> Seq<u8> {
    seq![(word / 256) as u8, (word % 256) as u8]
}

/// The bytes that one source line contributes to the binary image: the two
/// bytes of its instruction, or nothing where the line is skipped.
pub open spec fn line_bytes(line: Seq<char>) -> Seq<u8> {
    match spec_parse_line(line) {
        ParsedLine::Instruction(word) => instruction_bytes(word),
        _ => Seq::empty(),
    }
}

/// The binary image of a source: the bytes of its lines, in order.
pub open spec fn spec_assemble(lines: Seq<Seq<char>>) -> Seq<u8>
    decreases lines.len(),
{
    if lines.len() == 0 {
        Seq::empty()
    } else {
        spec_assemble(lines.drop_last()) + line_bytes(lines.last())
    }
}

/// The indices of the malformed lines of a source, in increasing order.
pub open spec fn spec_malformed_lines(lines: Seq<Seq<char>>) -> Seq<usize>
    decreases lines.len(),
{
    if lines.len() == 0 {
        Seq::empty()
    } else if spec_parse_line(lines.last()) == ParsedLine::Malformed {
        spec_malformed_lines(lines.drop_last()).push((lines.len() - 1) as usize)
    } else {
        spec_malformed_lines(lines.drop_last())
    }
}

/// The texts of the lines of a source.
pub open spec fn line_texts(source: Seq<String>) -> Seq<Seq<char>> {
    Seq::new(source.len(), |i: int| source[i]@)
}

/// What the loader makes of a source.
pub struct BinaryImage {
    /// The bytes of the instructions, two for each line that holds one.
    pub bytes: Vec<u8>,
    /// The indices, counted from zero, of the lines that were skipped because
    /// they are malformed.
    pub malformed_lines: Vec<usize>,
}

fn whitespace(c: char) -> (b: bool)
    ensures
        b == is_whitespace(c),
{
    let code: u32 = c as u32;
    (0x09 <= code && code <= 0x0D) || code == 0x20 || code == 0x85 || code == 0xA0 || code
        == 0x1680 || (0x2000 <= code && code <= 0x200A) || code == 0x2028 || code == 0x2029
        || code == 0x202F || code == 0x205F || code == 0x3000
}

fn hex_digit(c: char) -> (d: Option<u16>)
    ensures
        d is Some <==> is_hex_digit(c),
        d matches Some(v) ==> v == hex_digit_value(c),
{
    let code: u32 = c as u32;
    if 0x30 <= code && code <= 0x39 {
        Some((code - 0x30) as u16)
    } else if 0x61 <= code && code <= 0x66 {
        Some((code - 0x61 + 10) as u16)
    } else if 0x41 <= code && code <= 0x46 {
        Some((code - 0x41 + 10) as u16)
    } else {
        None
    }
}

fn chars_of(line: &str) -> (chars: Vec<char>)
    ensures
        chars@ == line@,
{
    let mut chars: Vec<char> = Vec::new();
    for c in it: line.chars()
        invariant
            it.seq() == line@,
            chars@ == line@.take(it.index()),
    {
        chars.push(c);
    }
    chars
}

/// An upper bound on what `count` hexadecimal digits can denote.
proof fn lemma_hex_value_bound(digits: Seq<char>)
    requires
        all_hex_digits(digits),
    ensures
        0 <= hex_value(digits),
        digits.len() == 0 ==> hex_value(digits) == 0,
        digits.len() == 1 ==> hex_value(digits) < 0x10,
        digits.len() == 2 ==> hex_value(digits) < 0x100,
        digits.len() == 3 ==> hex_value(digits) < 0x1000,
        digits.len() == 4 ==> hex_value(digits) < 0x10000,
    decreases digits.len(),
{
    if digits.len() > 0 {
        assert(is_hex_digit(digits[digits.len() - 1]));
        assert forall|i: int| 0 <= i < digits.drop_last().len() implies is_hex_digit(
            #[trigger] digits.drop_last()[i],
        ) by {
            assert(digits.drop_last()[i] == digits[i]);
        }
        lemma_hex_value_bound(digits.drop_last());
    }
}

/// Reads one line of a program source.
pub fn parse_line(line: &str) -> (parsed: ParsedLine)
    ensures
        parsed == spec_parse_line(line@),
{
    let chars = chars_of(line);
    let len = chars.len();
    let mut end: usize = 0;
    while end < len && chars[end] != '$'
        invariant
            end <= len == chars@.len(),
            comment_start(chars@, 0) == comment_start(chars@, end as int),
        decreases len - end,
    {
        end += 1;
    }
    let mut lo: usize = 0;
    while lo < end && whitespace(chars[lo])
        invariant
            lo <= end <= len == chars@.len(),
            trim_start(chars@, 0, end as int) == trim_start(chars@, lo as int, end as int),
        decreases end - lo,
    {
        lo += 1;
    }
    let mut hi: usize = end;
    while lo < hi && whitespace(chars[hi - 1])
        invariant
            lo <= hi <= end <= len == chars@.len(),
            trim_end(chars@, lo as int, end as int) == trim_end(chars@, lo as int, hi as int),
        decreases hi - lo,
    {
        hi -= 1;
    }
    let ghost text = chars@.subrange(lo as int, hi as int);
    assert(text == significant_text(line@));
    if lo == hi {
        return ParsedLine::Blank;
    }
    let prefixed = hi - lo >= 2 && chars[lo] == '0' && chars[lo + 1] == 'x';
    let start: usize = if prefixed {
        lo + 2
    } else {
        lo
    };
    let ghost digits = chars@.subrange(start as int, hi as int);
    assert(prefixed == has_hex_prefix(text));
    assert(digits =~= digits_of(text));
    if hi - start < 1 || hi - start > 4 {
        return ParsedLine::Malformed;
    }
    let mut value: u16 = 0;
    let mut i: usize = start;
    while i < hi
        invariant
            start <= i <= hi <= chars@.len(),
            chars@ == line@,
            text == significant_text(line@),
            text.len() > 0,
            digits == digits_of(text),
            digits == chars@.subrange(start as int, hi as int),
            1 <= digits.len() <= 4,
            all_hex_digits(chars@.subrange(start as int, i as int)),
            value == hex_value(chars@.subrange(start as int, i as int)),
        decreases hi - i,
    {
        let ghost done = chars@.subrange(start as int, i as int);
        let ghost next = chars@.subrange(start as int, i + 1);
        assert(next.drop_last() =~= done);
        assert(next.last() == chars@[i as int]);
        match hex_digit(chars[i]) {
            None => {
                assert(!is_hex_digit(digits[i - start]));
                return ParsedLine::Malformed;
            },
            Some(digit) => {
                assert forall|k: int| 0 <= k < next.len() implies is_hex_digit(
                    #[trigger] next[k],
                ) by {
                    if k < done.len() {
                        assert(next[k] == done[k]);
                    }
                }
                proof {
                    lemma_hex_value_bound(done);
                    lemma_hex_value_bound(next);
                }
                value = value * 16 + digit;
            },
        }
        i += 1;
    }
    assert(chars@.subrange(start as int, i as int) == digits);
    ParsedLine::Instruction(value)
}

/// Splits an instruction word into its two bytes.
pub fn split_instruction(word: u16) -> (bytes: (u8, u8))
    ensures
        instruction_bytes(word) == seq![bytes.0, bytes.1],
{
    let high: u8 = (word >> 8) as u8;
    let low: u8 = (word & 0xFF) as u8;
    assert((word >> 8) as u8 == (word / 256) as u8) by (bit_vector);
    assert((word & 0xFF) as u8 == (word % 256) as u8) by (bit_vector);
    (high, low)
}

/// Assembles a source, line by line, into its binary image. Blank lines
/// contribute nothing; malformed lines contribute nothing either and are
/// listed in the result.
pub fn assemble(source: &Vec<String>) -> (image: BinaryImage)
    ensures
        image.bytes@ == spec_assemble(line_texts(source@)),
        image.malformed_lines@ == spec_malformed_lines(line_texts(source@)),
{
    let ghost lines = line_texts(source@);
    let mut bytes: Vec<u8> = Vec::new();
    let mut malformed_lines: Vec<usize> = Vec::new();
    let mut i: usize = 0;
    while i < source.len()
        invariant
            i <= source.len(),
            lines == line_texts(source@),
            bytes@ == spec_assemble(lines.take(i as int)),
            malformed_lines@ == spec_malformed_lines(lines.take(i as int)),
        decreases source.len() - i,
    {
        assert(lines.take(i + 1).drop_last() =~= lines.take(i as int));
        assert(lines.take(i + 1).last() == source@[i as int]@);
        match parse_line(source[i].as_str()) {
            ParsedLine::Instruction(word) => {
                let (high, low) = split_instruction(word);
                bytes.push(high);
                bytes.push(low);
                assert(bytes@ =~= spec_assemble(lines.take(i as int)) + instruction_bytes(word));
            },
            ParsedLine::Malformed => {
                malformed_lines.push(i);
                assert(bytes@ =~= spec_assemble(lines.take(i as int)) + Seq::<u8>::empty());
            },
            ParsedLine::Blank => {
                assert(bytes@ =~= spec_assemble(lines.take(i as int)) + Seq::<u8>::empty());
            },
        }
        i += 1;
    }
    assert(lines.take(i as int) =~= lines);
    BinaryImage { bytes, malformed_lines }
}

/// The loader reads each line by itself: the image of two sources put
/// together is the image of the first followed by the image of the second.
pub proof fn lemma_assemble_concat(first: Seq<Seq<char>>, second: Seq<Seq<char>>)
    ensures
        spec_assemble(first + second) == spec_assemble(first) + spec_assemble(second),
    decreases second.len(),
{
    if second.len() == 0 {
        assert(first + second =~= first);
        assert(spec_assemble(first) + spec_assemble(second) =~= spec_assemble(first));
    } else {
        assert((first + second).drop_last() =~= first + second.drop_last());
        assert((first + second).last() == second.last());
        lemma_assemble_concat(first, second.drop_last());
        assert(spec_assemble(first + second) =~= spec_assemble(first) + spec_assemble(second));
    }
}

/// A line that is blank or malformed leaves no trace in the image: the lines
/// before it and the lines after it are read as if it were not there.
pub proof fn lemma_skipped_line_changes_nothing(
    before: Seq<Seq<char>>,
    skipped: Seq<char>,
    after: Seq<Seq<char>>,
)
    requires
        !(spec_parse_line(skipped) is Instruction),
    ensures
        spec_assemble(before + seq![skipped] + after) == spec_assemble(before + after),
        spec_assemble(before + seq![skipped] + after) == spec_assemble(before) + spec_assemble(
            after,
        ),
{
    lemma_assemble_concat(before + seq![skipped], after);
    lemma_assemble_concat(before, seq![skipped]);
    lemma_assemble_concat(before, after);
    assert(seq![skipped].drop_last() =~= Seq::<Seq<char>>::empty());
    assert(seq![skipped].last() == skipped);
    assert(spec_assemble(seq![skipped]) =~= Seq::<u8>::empty()) by {
        reveal_with_fuel(spec_assemble, 2);
    }
    assert(spec_assemble(before) + Seq::<u8>::empty() =~= spec_assemble(before));
}

/// A line made of `0x`, four hexadecimal digits, a space and a `$` yields the
/// instruction that the four digits denote, whatever follows the `$`; its two
/// bytes are the first two digits and the last two digits.
pub proof fn lemma_commented_instruction(
    d3: char,
    d2: char,
    d1: char,
    d0: char,
    comment: Seq<char>,
)
    requires
        is_hex_digit(d3),
        is_hex_digit(d2),
        is_hex_digit(d1),
        is_hex_digit(d0),
    ensures
        ({
            let line = seq!['0', 'x', d3, d2, d1, d0, ' ', '$'] + comment;
            let high = 16 * hex_digit_value(d3) + hex_digit_value(d2);
            let low = 16 * hex_digit_value(d1) + hex_digit_value(d0);
            &&& spec_parse_line(line) == ParsedLine::Instruction((256 * high + low) as u16)
            &&& line_bytes(line) == seq![high as u8, low as u8]
        }),
{
    let line = seq!['0', 'x', d3, d2, d1, d0, ' ', '$'] + comment;
    let high = 16 * hex_digit_value(d3) + hex_digit_value(d2);
    let low = 16 * hex_digit_value(d1) + hex_digit_value(d0);
    assert(line[0] == '0' && line[1] == 'x' && line[2] == d3 && line[3] == d2 && line[4] == d1
        && line[5] == d0 && line[6] == ' ' && line[7] == '$');
    assert(comment_start(line, 0) == 7) by {
        reveal_with_fuel(comment_start, 9);
    }
    assert(trim_start(line, 0, 7) == 0);
    assert(trim_end(line, 0, 7) == 6) by {
        reveal_with_fuel(trim_end, 3);
    }
    let text = significant_text(line);
    assert(text =~= seq!['0', 'x', d3, d2, d1, d0]);
    let digits = digits_of(text);
    assert(digits =~= seq![d3, d2, d1, d0]);
    let three = digits.drop_last();
    let two = three.drop_last();
    let one = two.drop_last();
    assert(three =~= seq![d3, d2, d1]);
    assert(two =~= seq![d3, d2]);
    assert(one =~= seq![d3]);
    assert(one.drop_last() =~= Seq::<char>::empty());
    assert(hex_value(one) == hex_digit_value(d3)) by {
        reveal_with_fuel(hex_value, 2);
    }
    assert(hex_value(two) == 16 * hex_value(one) + hex_digit_value(d2));
    assert(hex_value(three) == 16 * hex_value(two) + hex_digit_value(d1));
    assert(hex_value(digits) == 16 * hex_value(three) + hex_digit_value(d0));
    assert(hex_value(digits) == 256 * high + low);
    let word = (256 * high + low) as u16;
    assert(word / 256 == high && word % 256 == low);
}

/// The list of malformed lines names exactly the malformed lines, each once
/// and in the order of the source: its entries increase, each is the index of
/// a malformed line, and the index of every malformed line is among them.
pub proof fn lemma_malformed_lines_are_listed(lines: Seq<Seq<char>>)
    requires
        lines.len() <= usize::MAX,
    ensures
        forall|k: int|
            0 <= k < spec_malformed_lines(lines).len() ==> {
                let line = #[trigger] spec_malformed_lines(lines)[k];
                line < lines.len() && spec_parse_line(lines[line as int]) == ParsedLine::Malformed
            },
        forall|j: int, k: int|
            0 <= j < k < spec_malformed_lines(lines).len() ==> spec_malformed_lines(lines)[j]
                < spec_malformed_lines(lines)[k],
        forall|line: int|
            0 <= line < lines.len() && spec_parse_line(#[trigger] lines[line])
                == ParsedLine::Malformed ==> spec_malformed_lines(lines).contains(line as usize),
    decreases lines.len(),
{
    if lines.len() > 0 {
        let rest = lines.drop_last();
        let last = (lines.len() - 1) as usize;
        lemma_malformed_lines_are_listed(rest);
        let listed = spec_malformed_lines(lines);
        let before = spec_malformed_lines(rest);
        assert forall|k: int| 0 <= k < before.len() implies before[k] < last by {
            assert(before[k] < rest.len());
        }
        assert forall|line: int|
            0 <= line < lines.len() && spec_parse_line(#[trigger] lines[line])
                == ParsedLine::Malformed implies listed.contains(line as usize) by {
            if line < rest.len() {
                assert(rest[line] == lines[line]);
                let k = choose|k: int| 0 <= k < before.len() && before[k] == line as usize;
                assert(listed[k] == line as usize);
            } else {
                assert(listed[listed.len() - 1] == last);
            }
        }
        assert forall|k: int| 0 <= k < listed.len() implies ({
            let line = #[trigger] listed[k];
            line < lines.len() && spec_parse_line(lines[line as int]) == ParsedLine::Malformed
        }) by {
            if k < before.len() {
                assert(listed[k] == before[k]);
                assert(rest[before[k] as int] == lines[before[k] as int]);
            }
        }
    }
}

} // verus!
