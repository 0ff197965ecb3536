//! The grammar of RGAL, as functions on the bytes of the text. The parser's
//! contracts say that it computes these.
use crate::rgal::opcodes::{
    no_operand_opcodes, register_value_operand_opcodes, register_value_register_operand_opcodes,
    register_value_value_operand_opcodes, single_register_operand_opcodes,
    single_value_operand_opcodes, two_register_operand_opcodes,
    two_register_value_operand_opcodes, two_value_operand_opcodes, unknown,
    value_register_operand_opcodes, value_register_value_operand_opcodes,
    value_value_register_operand_opcodes,
};
use crate::rgal::{ParseError, ParseErrorKind, Span};
use crate::shared::{Instruction, OperandValueType, Register};
use vstd::prelude::*;
use vstd::string::StringSliceAdditionalSpecFns;

verus! {

/// The byte that ends a line.
pub const NEWLINE: u8 = 0x0a;

/// The byte `;`, which starts a comment.
pub const COMMENT: u8 = 0x3b;

/// The byte `,`, which separates operands.
pub const COMMA: u8 = 0x2c;

/// A space, a tab or a carriage return.
pub open spec fn is_blank(b: u8) -> bool {
    b == 0x20 || b == 0x09 || b == 0x0d
}

/// An upper-case letter, `A` to `Z`.
pub open spec fn is_upper(b: u8) -> bool {
    0x41 <= b <= 0x5a
}

/// The index of the first `b` in `s[lo..hi]`; `hi` if there is none.
pub open spec fn find(s: Seq<u8>, b: u8, lo: int, hi: int) -> int
    decreases hi - lo,
{
    if lo >= hi {
        hi
    } else if s[lo] == b {
        lo
    } else {
        find(s, b, lo + 1, hi)
    }
}

/// What [`find`] returns is between `lo` and `hi`; no byte before it is
/// `b`; and it is `hi` or the byte there is `b`.
pub proof fn lemma_find(s: Seq<u8>, b: u8, lo: int, hi: int)
    requires
        lo <= hi,
    ensures
        lo <= find(s, b, lo, hi) <= hi,
        forall|i: int| lo <= i < find(s, b, lo, hi) ==> s[i] != b,
        find(s, b, lo, hi) < hi ==> s[find(s, b, lo, hi)] == b,
    decreases hi - lo,
{
    if lo < hi && s[lo] != b {
        lemma_find(s, b, lo + 1, hi);
    }
}

/// How many times `b` occurs in `s[lo..hi]`.
pub open spec fn count(s: Seq<u8>, b: u8, lo: int, hi: int) -> int
    decreases hi - lo,
{
    if lo >= hi {
        0
    } else {
        count(s, b, lo, hi - 1) + if s[hi - 1] == b {
            1int
        } else {
            0int
        }
    }
}

/// The number of the line that holds position `pos`, counted from 1.
pub open spec fn line_number(s: Seq<u8>, pos: int) -> int {
    1 + count(s, NEWLINE, 0, pos)
}

/// The index of the first byte in `s[lo..hi]` that is not blank; `hi` if
/// all are blank.
pub open spec fn skip_blanks(s: Seq<u8>, lo: int, hi: int) -> int
    decreases hi - lo,
{
    if lo >= hi {
        hi
    } else if !is_blank(s[lo]) {
        lo
    } else {
        skip_blanks(s, lo + 1, hi)
    }
}

/// What [`skip_blanks`] returns is between `lo` and `hi`; every byte before
/// it is blank; and it is `hi` or the byte there is not blank.
pub proof fn lemma_skip_blanks(s: Seq<u8>, lo: int, hi: int)
    requires
        lo <= hi,
    ensures
        lo <= skip_blanks(s, lo, hi) <= hi,
        forall|i: int| lo <= i < skip_blanks(s, lo, hi) ==> is_blank(s[i]),
        skip_blanks(s, lo, hi) < hi ==> !is_blank(s[skip_blanks(s, lo, hi)]),
    decreases hi - lo,
{
    if lo < hi && is_blank(s[lo]) {
        lemma_skip_blanks(s, lo + 1, hi);
    }
}

/// The index after the last byte in `s[lo..hi]` that is not blank; `lo` if
/// all are blank.
pub open spec fn drop_blanks(s: Seq<u8>, lo: int, hi: int) -> int
    decreases hi - lo,
{
    if hi <= lo {
        lo
    } else if !is_blank(s[hi - 1]) {
        hi
    } else {
        drop_blanks(s, lo, hi - 1)
    }
}

/// What [`drop_blanks`] returns is between `lo` and `hi`; every byte from
/// there on is blank; and it is `lo` or the byte before it is not blank.
pub proof fn lemma_drop_blanks(s: Seq<u8>, lo: int, hi: int)
    requires
        lo <= hi,
    ensures
        lo <= drop_blanks(s, lo, hi) <= hi,
        forall|i: int| drop_blanks(s, lo, hi) <= i < hi ==> is_blank(s[i]),
        drop_blanks(s, lo, hi) > lo ==> !is_blank(s[drop_blanks(s, lo, hi) - 1]),
    decreases hi - lo,
{
    if lo < hi && is_blank(s[hi - 1]) {
        lemma_drop_blanks(s, lo, hi - 1);
    }
}

/// The index of the first byte in `s[lo..hi]` that is blank or a comma;
/// `hi` if there is none. A mnemonic that starts at `lo` ends here.
pub open spec fn word_end(s: Seq<u8>, lo: int, hi: int) -> int
    decreases hi - lo,
{
    if lo >= hi {
        hi
    } else if is_blank(s[lo]) || s[lo] == COMMA {
        lo
    } else {
        word_end(s, lo + 1, hi)
    }
}

/// What [`word_end`] returns is between `lo` and `hi`; no byte before it is
/// blank or a comma; and it is `hi` or the byte there is one of these.
pub proof fn lemma_word_end(s: Seq<u8>, lo: int, hi: int)
    requires
        lo <= hi,
    ensures
        lo <= word_end(s, lo, hi) <= hi,
        forall|i: int| lo <= i < word_end(s, lo, hi) ==> !is_blank(s[i]) && s[i] != COMMA,
        word_end(s, lo, hi) < hi ==> is_blank(s[word_end(s, lo, hi)]) || s[word_end(s, lo, hi)]
            == COMMA,
    decreases hi - lo,
{
    if lo < hi && !(is_blank(s[lo]) || s[lo] == COMMA) {
        lemma_word_end(s, lo + 1, hi);
    }
}

/// A piece of text without the blanks at its ends neither starts nor ends
/// with a blank.
pub proof fn lemma_trimmed(s: Seq<u8>, lo: int, hi: int)
    requires
        0 <= lo <= hi <= s.len(),
    ensures
        trimmed(s, lo, hi).len() > 0 ==> !is_blank(trimmed(s, lo, hi).first()) && !is_blank(
            trimmed(s, lo, hi).last(),
        ),
{
    lemma_skip_blanks(s, lo, hi);
    lemma_drop_blanks(s, skip_blanks(s, lo, hi), hi);
}

/// `s[lo..hi]` without the blanks at its ends.
pub open spec fn trimmed(s: Seq<u8>, lo: int, hi: int) -> Seq<u8> {
    s.subrange(skip_blanks(s, lo, hi), drop_blanks(s, skip_blanks(s, lo, hi), hi))
}

/// The pieces of `s[lo..hi]` between its commas, each without the blanks at
/// its ends. There is one piece more than there are commas.
pub open spec fn fields(s: Seq<u8>, lo: int, hi: int) -> Seq<Seq<u8>>
    decreases hi - lo,
{
    let comma = find(s, COMMA, lo, hi);
    if comma >= hi {
        seq![trimmed(s, lo, hi)]
    } else {
        proof {
            lemma_find(s, COMMA, lo, hi);
        }
        seq![trimmed(s, lo, comma)] + fields(s, comma + 1, hi)
    }
}

/// The operand words in `s[lo..hi]`, the text behind a mnemonic: none if
/// the text is blank, else its fields.
pub open spec fn operand_words(s: Seq<u8>, lo: int, hi: int) -> Seq<Seq<u8>> {
    if skip_blanks(s, lo, hi) >= hi {
        Seq::empty()
    } else {
        fields(s, lo, hi)
    }
}

/// The register with the given name.
pub open spec fn register_named(word: Seq<u8>) -> Option<Register> {
    if word == "A".spec_bytes() {
        Some(Register::A)
    } else if word == "X".spec_bytes() {
        Some(Register::X)
    } else if word == "Y".spec_bytes() {
        Some(Register::Y)
    } else if word == "R0".spec_bytes() {
        Some(Register::R0)
    } else if word == "R1".spec_bytes() {
        Some(Register::R1)
    } else if word == "R2".spec_bytes() {
        Some(Register::R2)
    } else if word == "R3".spec_bytes() {
        Some(Register::R3)
    } else if word == "R4".spec_bytes() {
        Some(Register::R4)
    } else if word == "R5".spec_bytes() {
        Some(Register::R5)
    } else if word == "R6".spec_bytes() {
        Some(Register::R6)
    } else {
        None
    }
}

/// The value of the digit `b` in the given radix: `0` to `9`, then `a` to
/// `f` or `A` to `F` for ten to fifteen. `None` if `b` is no digit of the
/// radix.
pub open spec fn digit(b: u8, radix: nat) -> Option<nat> {
    let value: nat = if 0x30 <= b <= 0x39 {
        (b - 0x30) as nat
    } else if 0x61 <= b <= 0x66 {
        (b - 0x61 + 10) as nat
    } else if 0x41 <= b <= 0x46 {
        (b - 0x41 + 10) as nat
    } else {
        radix
    };
    if value < radix {
        Some(value)
    } else {
        None
    }
}

/// Whether every byte of `s` is a digit of the radix.
pub open spec fn all_digits(s: Seq<u8>, radix: nat) -> bool {
    forall|i: int| 0 <= i < s.len() ==> (#[trigger] digit(s[i], radix)) is Some
}

/// The number that the digits `s` write in the given radix.
pub open spec fn number(s: Seq<u8>, radix: nat) -> nat
    decreases s.len(),
{
    if s.len() == 0 {
        0
    } else {
        number(s.drop_last(), radix) * radix + digit(s.last(), radix)->0
    }
}

/// The immediate that the digits `s` write in the given radix. Without
/// digits, or with a byte that is no digit, the operand is invalid; a
/// number above 65535 gives the error `overflow`.
pub open spec fn immediate(s: Seq<u8>, radix: nat, overflow: ParseErrorKind) -> Result<
    OperandValueType,
    ParseErrorKind,
> {
    if s.len() == 0 || !all_digits(s, radix) {
        Err(ParseErrorKind::InvalidOperand)
    } else if number(s, radix) > u16::MAX {
        Err(overflow)
    } else {
        Ok(OperandValueType::Immediate(number(s, radix) as u16))
    }
}

/// The operand that a word writes.
///
/// * A word that starts with an upper-case letter must be a register name.
/// * A word that starts with `0x` is a hexadecimal number, one that starts
///   with `0b` a binary number.
/// * Any other word is a decimal number.
#[verifier::opaque]
pub open spec fn spec_operand(word: Seq<u8>) -> Result<OperandValueType, ParseErrorKind> {
    if word.len() == 0 {
        Err(ParseErrorKind::InvalidOperand)
    } else if is_upper(word[0]) {
        match register_named(word) {
            Some(register) => Ok(OperandValueType::Register(register)),
            None => Err(ParseErrorKind::InvalidRegister),
        }
    } else if word.len() >= 2 && word[0] == 0x30 && word[1] == 0x78 {
        immediate(word.skip(2), 16, ParseErrorKind::InvalidHexNumber)
    } else if word.len() >= 2 && word[0] == 0x30 && word[1] == 0x62 {
        immediate(word.skip(2), 2, ParseErrorKind::InvalidBinaryNumber)
    } else {
        immediate(word, 10, ParseErrorKind::InvalidDecimalNumber)
    }
}

/// The operands that the words write, or the error of the first word that
/// writes none.
pub open spec fn spec_operands(words: Seq<Seq<u8>>) -> Result<
    Seq<OperandValueType>,
    ParseErrorKind,
>
    decreases words.len(),
{
    if words.len() == 0 {
        Ok(Seq::empty())
    } else {
        match spec_operands(words.drop_last()) {
            Err(kind) => Err(kind),
            Ok(operands) => match spec_operand(words.last()) {
                Err(kind) => Err(kind),
                Ok(operand) => Ok(operands.push(operand)),
            },
        }
    }
}

/// The first of the two results if it is an instruction, else the second.
pub open spec fn or_else(
    first: Result<Instruction, ParseError>,
    second: Result<Instruction, ParseError>,
) -> Result<Instruction, ParseError> {
    if first is Ok {
        first
    } else {
        second
    }
}

/// The instruction that a mnemonic makes with its operands. The mnemonic is
/// looked up in the tables of the shapes with as many operands, those that
/// want registers first. If none of them has it for these operands, the
/// instruction is invalid; so is one with more than three operands.
pub open spec fn assemble(span: Span, opcode: Seq<u8>, operands: Seq<OperandValueType>) -> Result<
    Instruction,
    ParseError,
> {
    let found = if operands.len() == 0 {
        no_operand_opcodes(span, opcode)
    } else if operands.len() == 1 {
        or_else(
            single_register_operand_opcodes(span, opcode, operands[0]),
            single_value_operand_opcodes(span, opcode, operands[0]),
        )
    } else if operands.len() == 2 {
        or_else(
            two_register_operand_opcodes(span, opcode, operands[0], operands[1]),
            or_else(
                register_value_operand_opcodes(span, opcode, operands[0], operands[1]),
                or_else(
                    value_register_operand_opcodes(span, opcode, operands[0], operands[1]),
                    two_value_operand_opcodes(span, opcode, operands[0], operands[1]),
                ),
            ),
        )
    } else if operands.len() == 3 {
        or_else(
            two_register_value_operand_opcodes(span, opcode, operands[0], operands[1], operands[2]),
            or_else(
                register_value_register_operand_opcodes(
                    span,
                    opcode,
                    operands[0],
                    operands[1],
                    operands[2],
                ),
                or_else(
                    register_value_value_operand_opcodes(
                        span,
                        opcode,
                        operands[0],
                        operands[1],
                        operands[2],
                    ),
                    or_else(
                        value_register_value_operand_opcodes(
                            span,
                            opcode,
                            operands[0],
                            operands[1],
                            operands[2],
                        ),
                        value_value_register_operand_opcodes(
                            span,
                            opcode,
                            operands[0],
                            operands[1],
                            operands[2],
                        ),
                    ),
                ),
            ),
        )
    } else {
        Err(unknown(span))
    };
    if found is Ok {
        found
    } else {
        Err(unknown(span))
    }
}

/// The instruction that a mnemonic makes with the operands that the words
/// write. An error in an operand comes before an error in the mnemonic.
pub open spec fn spec_instruction(span: Span, opcode: Seq<u8>, words: Seq<Seq<u8>>) -> Result<
    Instruction,
    ParseError,
> {
    match spec_operands(words) {
        Err(kind) => Err(ParseError { line: span.line, column: span.column, kind }),
        Ok(operands) => assemble(span, opcode, operands),
    }
}

/// What the line `s[lo..hi]` holds, where `line` is its number. The line
/// ends before a comment, and blanks at its ends do not count. What is
/// left is nothing (`None`), or a statement: a mnemonic, which ends at the
/// first blank or comma, and behind it the operand words.
pub open spec fn spec_line(s: Seq<u8>, lo: int, hi: int, line: int) -> Result<
    Option<Instruction>,
    ParseError,
> {
    let end = find(s, COMMENT, lo, hi);
    let start = skip_blanks(s, lo, end);
    let stop = drop_blanks(s, start, end);
    if start >= stop {
        Ok(None)
    } else {
        let span = Span { line: line as usize, column: (start - lo + 1) as usize };
        let opcode_end = word_end(s, start, stop);
        match spec_instruction(
            span,
            s.subrange(start, opcode_end),
            operand_words(s, opcode_end, stop),
        ) {
            Ok(instruction) => Ok(Some(instruction)),
            Err(error) => Err(error),
        }
    }
}

/// The instructions that the lines of `s` from position `lo` on hold, in
/// order, where `lo` is the start of a line; or the error of the first line
/// that has one.
pub open spec fn spec_program(s: Seq<u8>, lo: int) -> Result<Seq<Instruction>, ParseError>
    decreases s.len() + 1 - lo,
{
    if lo >= s.len() {
        Ok(Seq::empty())
    } else {
        let hi = find(s, NEWLINE, lo, s.len() as int);
        proof {
            lemma_find(s, NEWLINE, lo, s.len() as int);
        }
        let rest = spec_program(s, hi + 1);
        match spec_line(s, lo, hi, line_number(s, lo)) {
            Err(error) => Err(error),
            Ok(None) => rest,
            Ok(Some(instruction)) => match rest {
                Err(error) => Err(error),
                Ok(rest) => Ok(seq![instruction] + rest),
            },
        }
    }
}

/// The instruction that the text `s` holds, which is one line. A text
/// without a statement is an invalid instruction.
pub open spec fn spec_single(s: Seq<u8>) -> Result<Instruction, ParseError> {
    match spec_line(s, 0, s.len() as int, 1) {
        Ok(Some(instruction)) => Ok(instruction),
        Ok(None) => Err(unknown(Span { line: 1, column: 1 })),
        Err(error) => Err(error),
    }
}

} // verus!
