//! The assembler front end: RGAL text to instructions.
//!
//! The text is read line by line. A `;` starts a comment that runs to the
//! end of the line. Blank lines are skipped. Any other line is a mnemonic
//! and up to three operands, the operands separated by commas. An operand is
//! a register name or a number: decimal, hexadecimal after `0x`, or binary
//! after `0b`.
pub mod grammar;
pub mod lexer;
pub mod opcodes;

use crate::rgal::grammar::{
    all_digits, digit, immediate, line_number, number, register_named, spec_instruction,
    spec_line, spec_operand, spec_operands, spec_program, spec_single, NEWLINE,
};
use crate::rgal::lexer::{
    drop_blank_bytes, find_byte, find_word_end, lemma_next_line, skip_blank_bytes,
    split_operands, words_of,
};
use crate::rgal::opcodes::{
    parse_no_operand_opcodes, parse_register_value__value_operand_opcodes,
    parse_register_value_operand_opcodes, parse_register_value_register_operand_opcodes,
    parse_single_register_operand_opcodes, parse_single_value_operand_opcodes,
    parse_two_register_operand_opcodes, parse_two_register_value_operand_opcodes,
    parse_two_value_operand_opcodes, parse_value_register_operand_opcodes,
    parse_value_register_value_operand_opcodes, parse_value_value_register_operand_opcodes,
    unknown,
};
use crate::shared::{Instruction, OperandValueType, Register};
use crate::tpu::rom_view;
use std::rc::Rc;
use vstd::prelude::*;
use vstd::slice::{slice_subrange, slice_to_vec};
use vstd::string::StringSliceAdditionalSpecFns;

verus! {

/// A place in the text: line and column of the first byte of a statement,
/// both counted from 1.
#[derive(Debug, Clone, Copy, PartialEq, Eq, Structural)]
pub struct Span {
    pub line: usize,
    pub column: usize,
}

/// What is wrong with a statement.
#[derive(Debug, Clone, Copy, PartialEq, Eq, Structural)]
pub enum ParseErrorKind {
    /// The mnemonic is unknown, or does not take operands of this shape.
    InvalidInstruction,
    /// The operand must be a register.
    ExpectedSingleRegister,
    /// Both operands must be registers.
    ExpectedTwoRegisters,
    /// One operand must be a register.
    ExpectedRegisterAndValue,
    /// The first two operands must be registers.
    ExpectedTwoRegistersAndValue,
    /// The second operand must be a register.
    ExpectedValueRegisterValue,
    /// The first and the third operand must be registers.
    ExpectedRegisterValueRegister,
    /// The operand looks like a register name but is none.
    InvalidRegister,
    /// The hexadecimal number does not fit in 16 bits.
    InvalidHexNumber,
    /// The binary number does not fit in 16 bits.
    InvalidBinaryNumber,
    /// The decimal number does not fit in 16 bits.
    InvalidDecimalNumber,
    /// The operand is neither a register name nor a number.
    InvalidOperand,
}

/// A statement that could not be parsed: where it starts and what is wrong.
#[derive(Debug, Clone, Copy, PartialEq, Eq, Structural)]
pub struct ParseError {
    pub line: usize,
    pub column: usize,
    pub kind: ParseErrorKind,
}

/// The text that describes each kind of error.
pub open spec fn spec_message(kind: ParseErrorKind) -> Seq<char> {
    match kind {
        ParseErrorKind::InvalidInstruction => "Failed to parse instruction"@,
        ParseErrorKind::ExpectedSingleRegister => "Expected single register operand"@,
        ParseErrorKind::ExpectedTwoRegisters => "Expected two register operands"@,
        ParseErrorKind::ExpectedRegisterAndValue => "Expected a register and value operand"@,
        ParseErrorKind::ExpectedTwoRegistersAndValue => {
            "Expected two register operands and a value"@
        },
        ParseErrorKind::ExpectedValueRegisterValue => "Expected value, register, value operands"@,
        ParseErrorKind::ExpectedRegisterValueRegister => {
            "Expected register, value, register operands"@
        },
        ParseErrorKind::InvalidRegister => "Invalid register"@,
        ParseErrorKind::InvalidHexNumber => "Invalid hex number"@,
        ParseErrorKind::InvalidBinaryNumber => "Invalid binary number"@,
        ParseErrorKind::InvalidDecimalNumber => "Invalid decimal number"@,
        ParseErrorKind::InvalidOperand => "Invalid operand"@,
    }
}

impl ParseError {
    /// The text that describes the error.
    pub fn message(&self) -> (text: String)
        ensures
            text@ == spec_message(self.kind),
    {
        let text = match self.kind {
            ParseErrorKind::InvalidInstruction => "Failed to parse instruction",
            ParseErrorKind::ExpectedSingleRegister => "Expected single register operand",
            ParseErrorKind::ExpectedTwoRegisters => "Expected two register operands",
            ParseErrorKind::ExpectedRegisterAndValue => "Expected a register and value operand",
            ParseErrorKind::ExpectedTwoRegistersAndValue => {
                "Expected two register operands and a value"
            },
            ParseErrorKind::ExpectedValueRegisterValue => {
                "Expected value, register, value operands"
            },
            ParseErrorKind::ExpectedRegisterValueRegister => {
                "Expected register, value, register operands"
            },
            ParseErrorKind::InvalidRegister => "Invalid register",
            ParseErrorKind::InvalidHexNumber => "Invalid hex number",
            ParseErrorKind::InvalidBinaryNumber => "Invalid binary number",
            ParseErrorKind::InvalidDecimalNumber => "Invalid decimal number",
            ParseErrorKind::InvalidOperand => "Invalid operand",
        };
        text.to_owned()
    }
}

/// A statement cut into its words: the mnemonic and the operand words.
#[derive(Debug, Clone)]
pub struct Pair {
    /// Where the statement starts.
    pub span: Span,
    /// The mnemonic.
    pub opcode: Vec<u8>,
    /// The operand words, in order.
    pub operands: Vec<Vec<u8>>,
}

/// The error of the given kind at the given place.
pub open spec fn error_at(span: Span, kind: ParseErrorKind) -> ParseError {
    ParseError { line: span.line, column: span.column, kind }
}

/// The instructions `acc` followed by those of `rest`, if `rest` has no error.
pub open spec fn prepend(
    acc: Seq<Instruction>,
    rest: Result<Seq<Instruction>, ParseError>,
) -> Result<
    Seq<Instruction>,
    ParseError,
> {
    match rest {
        Ok(tail) => Ok(acc + tail),
        Err(error) => Err(error),
    }
}

/// Parse a program: one instruction per line, blank lines and comments
/// skipped. The result is the instructions in order, or the error of the
/// first line that has one: see [`spec_program`].
pub fn parse_program(input: &str) -> (result: Result<Vec<Rc<Instruction>>, ParseError>)
    ensures
        match result {
            Ok(program) => spec_program(input.spec_bytes(), 0) == Ok::<
                Seq<Instruction>,
                ParseError,
            >(rom_view(program)),
            Err(error) => spec_program(input.spec_bytes(), 0) == Err::<
                Seq<Instruction>,
                ParseError,
            >(error),
        },
{
    let bytes = input.as_bytes();
    let length = bytes.len();
    let mut instructions: Vec<Rc<Instruction>> = Vec::new();
    let mut lo: usize = 0;
    let mut line: usize = 1;
    proof {
        assert(rom_view(instructions) =~= Seq::<Instruction>::empty());
        assert(rom_view(instructions) + Seq::<Instruction>::empty() =~= rom_view(instructions));
        reveal_with_fuel(crate::rgal::grammar::count, 1);
    }
    while lo < length
        invariant
            lo <= length == bytes@.len(),
            bytes@ == input.spec_bytes(),
            lo < length ==> line == line_number(bytes@, lo as int),
            prepend(rom_view(instructions), spec_program(bytes@, lo as int)) == spec_program(
                bytes@,
                0,
            ),
        decreases length - lo,
    {
        let hi = find_byte(bytes, NEWLINE, lo, length);
        let ghost before = rom_view(instructions);
        let ghost rest = spec_program(bytes@, hi + 1);
        match parse_line(bytes, lo, hi, line) {
            Err(error) => {
                return Err(error);
            },
            Ok(None) => {},
            Ok(Some(instruction)) => {
                instructions.push(Rc::new(instruction));
                proof {
                    assert(rom_view(instructions) =~= before.push(instruction));
                    if let Ok(tail) = rest {
                        assert(before.push(instruction) + tail =~= before + (seq![instruction]
                            + tail));
                    }
                }
            },
        }
        if hi < length {
            proof {
                lemma_next_line(bytes@, lo as int);
            }
            lo = hi + 1;
            if lo < length {
                line = line + 1;
            }
        } else {
            lo = length;
        }
    }
    proof {
        assert(rom_view(instructions) + Seq::<Instruction>::empty() =~= rom_view(instructions));
    }
    Ok(instructions)
}

/// Parse a single instruction from one line of text: see [`spec_single`].
pub fn parse_instruction(input: &str) -> (result: Result<Instruction, ParseError>)
    ensures
        result == spec_single(input.spec_bytes()),
{
    let bytes = input.as_bytes();
    match parse_line(bytes, 0, bytes.len(), 1) {
        Ok(Some(instruction)) => Ok(instruction),
        Ok(None) => Err(
            ParseError { line: 1, column: 1, kind: ParseErrorKind::InvalidInstruction },
        ),
        Err(error) => Err(error),
    }
}

/// Parse the line `bytes[lo..hi]`, which has the number `line`: nothing for
/// a line that is blank or only a comment, else its instruction: see
/// [`spec_line`].
pub fn parse_line(bytes: &[u8], lo: usize, hi: usize, line: usize) -> (result: Result<
    Option<Instruction>,
    ParseError,
>)
    requires
        lo <= hi <= bytes@.len(),
    ensures
        result == spec_line(bytes@, lo as int, hi as int, line as int),
{
    let end = find_byte(bytes, crate::rgal::grammar::COMMENT, lo, hi);
    let start = skip_blank_bytes(bytes, lo, end);
    let stop = drop_blank_bytes(bytes, start, end);
    if start >= stop {
        return Ok(None);
    }
    let span = Span { line, column: start - lo + 1 };
    let opcode_end = find_word_end(bytes, start, stop);
    let pair = Pair {
        span,
        opcode: slice_to_vec(slice_subrange(bytes, start, opcode_end)),
        operands: split_operands(bytes, opcode_end, stop),
    };
    match parse_instruction_from_pair(&pair) {
        Ok(instruction) => Ok(Some(instruction)),
        Err(error) => Err(error),
    }
}

/// An error in a word makes the same error in every longer list of words
/// that starts with it.
pub proof fn lemma_operands_error(words: Seq<Seq<u8>>, k: int)
    requires
        0 <= k <= words.len(),
        spec_operands(words.take(k)) is Err,
    ensures
        spec_operands(words) == spec_operands(words.take(k)),
    decreases words.len() - k,
{
    if k == words.len() {
        assert(words.take(k) =~= words);
    } else {
        assert(words.take(k + 1).drop_last() =~= words.take(k));
        lemma_operands_error(words, k + 1);
    }
}

/// The operands that the words write, or the error of the first word that
/// writes none, at the place of the statement: see [`spec_operands`].
pub fn parse_operands(span: Span, words: &Vec<Vec<u8>>) -> (result: Result<
    Vec<OperandValueType>,
    ParseError,
>)
    ensures
        match result {
            Ok(operands) => spec_operands(words_of(*words)) == Ok::<
                Seq<OperandValueType>,
                ParseErrorKind,
            >(operands@),
            Err(error) => spec_operands(words_of(*words)) is Err && error == error_at(
                span,
                spec_operands(words_of(*words))->Err_0,
            ),
        },
{
    let ghost all = words_of(*words);
    let mut operands: Vec<OperandValueType> = Vec::new();
    let mut i: usize = 0;
    proof {
        assert(all.take(0) =~= Seq::<Seq<u8>>::empty());
    }
    while i < words.len()
        invariant
            i <= words@.len(),
            all == words_of(*words),
            spec_operands(all.take(i as int)) == Ok::<Seq<OperandValueType>, ParseErrorKind>(
                operands@,
            ),
        decreases words@.len() - i,
    {
        proof {
            assert(all.take(i + 1).drop_last() =~= all.take(i as int));
            assert(all.take(i + 1).last() == words@[i as int]@);
        }
        match parse_any_operand_from_pair(span, words[i].as_slice()) {
            Ok(operand) => {
                operands.push(operand);
            },
            Err(error) => {
                proof {
                    lemma_operands_error(all, i + 1);
                }
                return Err(error);
            },
        }
        i += 1;
    }
    proof {
        assert(all.take(i as int) =~= all);
    }
    Ok(operands)
}

/// The instruction that a statement writes: the operands that its words
/// write, looked up under its mnemonic: see [`spec_instruction`].
pub fn parse_instruction_from_pair(pair: &Pair) -> (result: Result<Instruction, ParseError>)
    ensures
        result == spec_instruction(pair.span, pair.opcode@, words_of(pair.operands)),
{
    let span = pair.span;
    let opcode = pair.opcode.as_slice();
    let operands = match parse_operands(span, &pair.operands) {
        Ok(operands) => operands,
        Err(error) => return Err(error),
    };
    let found = if operands.len() == 0 {
        parse_no_operand_opcodes(span, opcode)
    } else if operands.len() == 1 {
        match parse_single_register_operand_opcodes(span, opcode, operands[0]) {
            Ok(instruction) => Ok(instruction),
            Err(_) => parse_single_value_operand_opcodes(span, opcode, operands[0]),
        }
    } else if operands.len() == 2 {
        match parse_two_register_operand_opcodes(span, opcode, operands[0], operands[1]) {
            Ok(instruction) => Ok(instruction),
            Err(_) => match parse_register_value_operand_opcodes(
                span,
                opcode,
                operands[0],
                operands[1],
            ) {
                Ok(instruction) => Ok(instruction),
                Err(_) => match parse_value_register_operand_opcodes(
                    span,
                    opcode,
                    operands[0],
                    operands[1],
                ) {
                    Ok(instruction) => Ok(instruction),
                    Err(_) => parse_two_value_operand_opcodes(
                        span,
                        opcode,
                        operands[0],
                        operands[1],
                    ),
                },
            },
        }
    } else if operands.len() == 3 {
        let (a, b, c) = (operands[0], operands[1], operands[2]);
        match parse_two_register_value_operand_opcodes(span, opcode, a, b, c) {
            Ok(instruction) => Ok(instruction),
            Err(_) => match parse_register_value_register_operand_opcodes(span, opcode, a, b, c) {
                Ok(instruction) => Ok(instruction),
                Err(_) => match parse_register_value__value_operand_opcodes(
                    span,
                    opcode,
                    a,
                    b,
                    c,
                ) {
                    Ok(instruction) => Ok(instruction),
                    Err(_) => match parse_value_register_value_operand_opcodes(
                        span,
                        opcode,
                        a,
                        b,
                        c,
                    ) {
                        Ok(instruction) => Ok(instruction),
                        Err(_) => parse_value_value_register_operand_opcodes(
                            span,
                            opcode,
                            a,
                            b,
                            c,
                        ),
                    },
                },
            },
        }
    } else {
        Err(
            ParseError {
                line: span.line,
                column: span.column,
                kind: ParseErrorKind::InvalidInstruction,
            },
        )
    };
    match found {
        Ok(instruction) => Ok(instruction),
        Err(_) => Err(
            ParseError {
                line: span.line,
                column: span.column,
                kind: ParseErrorKind::InvalidInstruction,
            },
        ),
    }
}

/// The value of the digit `b` in the given radix, if it is one.
pub fn digit_value(b: u8, radix: u32) -> (value: Option<u32>)
    requires
        radix <= 16,
    ensures
        match value {
            Some(v) => digit(b, radix as nat) == Some(v as nat),
            None => digit(b, radix as nat) is None,
        },
{
    let value: u32 = if 0x30 <= b && b <= 0x39 {
        (b - 0x30) as u32
    } else if 0x61 <= b && b <= 0x66 {
        (b - 0x61) as u32 + 10
    } else if 0x41 <= b && b <= 0x46 {
        (b - 0x41) as u32 + 10
    } else {
        radix
    };
    if value < radix {
        Some(value)
    } else {
        None
    }
}

/// More digits do not make a number smaller.
pub proof fn lemma_number_grows(s: Seq<u8>, radix: nat)
    requires
        s.len() > 0,
        radix >= 1,
    ensures
        number(s, radix) >= number(s.drop_last(), radix),
{
    let head = number(s.drop_last(), radix);
    assert(head * radix >= head) by (nonlinear_arith)
        requires
            radix >= 1,
            head >= 0,
    ;
}

/// The immediate that the digits `word[start..]` write in the given radix:
/// see [`immediate`].
pub fn parse_number(
    word: &[u8],
    start: usize,
    radix: u32,
    overflow: ParseErrorKind,
) -> (result: Result<OperandValueType, ParseErrorKind>)
    requires
        start <= word@.len(),
        1 <= radix <= 16,
    ensures
        result == immediate(word@.skip(start as int), radix as nat, overflow),
{
    let ghost digits = word@.skip(start as int);
    if start >= word.len() {
        return Err(ParseErrorKind::InvalidOperand);
    }
    let mut value: u32 = 0;
    let mut too_large = false;
    let mut i: usize = start;
    proof {
        assert(digits.take(0) =~= Seq::<u8>::empty());
    }
    while i < word.len()
        invariant
            start <= i <= word@.len(),
            1 <= radix <= 16,
            digits == word@.skip(start as int),
            all_digits(digits.take(i - start), radix as nat),
            !too_large ==> value == number(digits.take(i - start), radix as nat) && value
                <= u16::MAX,
            too_large ==> number(digits.take(i - start), radix as nat) > u16::MAX,
        decreases word@.len() - i,
    {
        let ghost longer = digits.take(i - start + 1);
        proof {
            assert(longer.drop_last() =~= digits.take(i - start));
            assert(longer.last() == word@[i as int]);
            lemma_number_grows(longer, radix as nat);
        }
        match digit_value(word[i], radix) {
            None => {
                proof {
                    assert(digit(digits[i - start], radix as nat) is None);
                }
                return Err(ParseErrorKind::InvalidOperand);
            },
            Some(d) => {
                proof {
                    assert forall|k: int| 0 <= k < longer.len() implies (#[trigger] digit(
                        longer[k],
                        radix as nat,
                    )) is Some by {
                        if k < longer.len() - 1 {
                            assert(longer[k] == digits.take(i - start)[k]);
                        }
                    }
                }
                if !too_large {
                    proof {
                        assert(value * radix <= 0xffff * 16) by (nonlinear_arith)
                            requires
                                value <= 0xffff,
                                radix <= 16,
                        ;
                    }
                    value = value * radix + d;
                    if value > 0xffff {
                        too_large = true;
                    }
                }
            },
        }
        i += 1;
    }
    proof {
        assert(digits.take(i - start) =~= digits);
    }
    if too_large {
        Err(overflow)
    } else {
        Ok(OperandValueType::Immediate(value as u16))
    }
}

/// The register with the given name, if there is one.
pub fn parse_register(word: &[u8]) -> (register: Option<Register>)
    ensures
        register == register_named(word@),
{
    if is_word(word, "A") {
        Some(Register::A)
    } else if is_word(word, "X") {
        Some(Register::X)
    } else if is_word(word, "Y") {
        Some(Register::Y)
    } else if is_word(word, "R0") {
        Some(Register::R0)
    } else if is_word(word, "R1") {
        Some(Register::R1)
    } else if is_word(word, "R2") {
        Some(Register::R2)
    } else if is_word(word, "R3") {
        Some(Register::R3)
    } else if is_word(word, "R4") {
        Some(Register::R4)
    } else if is_word(word, "R5") {
        Some(Register::R5)
    } else if is_word(word, "R6") {
        Some(Register::R6)
    } else {
        None
    }
}

/// The operand that a word writes: a register or a number. The error
/// carries the place of the statement: see [`spec_operand`].
pub fn parse_any_operand_from_pair(span: Span, word: &[u8]) -> (result: Result<
    OperandValueType,
    ParseError,
>)
    ensures
        result == match spec_operand(word@) {
            Ok(operand) => Ok::<OperandValueType, ParseError>(operand),
            Err(kind) => Err::<OperandValueType, ParseError>(error_at(span, kind)),
        },
{
    proof {
        reveal(spec_operand);
    }
    let parsed = if word.len() == 0 {
        Err(ParseErrorKind::InvalidOperand)
    } else if 0x41 <= word[0] && word[0] <= 0x5a {
        match parse_register(word) {
            Some(register) => Ok(OperandValueType::Register(register)),
            None => Err(ParseErrorKind::InvalidRegister),
        }
    } else if word.len() >= 2 && word[0] == 0x30 && word[1] == 0x78 {
        parse_number(word, 2, 16, ParseErrorKind::InvalidHexNumber)
    } else if word.len() >= 2 && word[0] == 0x30 && word[1] == 0x62 {
        parse_number(word, 2, 2, ParseErrorKind::InvalidBinaryNumber)
    } else {
        proof {
            assert(word@.skip(0) =~= word@);
        }
        parse_number(word, 0, 10, ParseErrorKind::InvalidDecimalNumber)
    };
    match parsed {
        Ok(operand) => Ok(operand),
        Err(kind) => Err(ParseError { line: span.line, column: span.column, kind }),
    }
}

/// Whether the bytes are those of `word`.
pub fn is_word(bytes: &[u8], word: &str) -> (same: bool)
    ensures
        same == (bytes@ == word.spec_bytes()),
{
    let letters = word.as_bytes();
    if bytes.len() != letters.len() {
        return false;
    }
    let mut i: usize = 0;
    while i < bytes.len()
        invariant
            i <= bytes@.len(),
            bytes@.len() == letters@.len(),
            letters@ == word.spec_bytes(),
            bytes@.take(i as int) == letters@.take(i as int),
        decreases bytes@.len() - i,
    {
        if bytes[i] != letters[i] {
            proof {
                assert(bytes@[i as int] != letters@[i as int]);
            }
            return false;
        }
        proof {
            assert(bytes@.take(i + 1) =~= bytes@.take(i as int).push(bytes@[i as int]));
            assert(letters@.take(i + 1) =~= letters@.take(i as int).push(letters@[i as int]));
        }
        i += 1;
    }
    proof {
        assert(bytes@.take(i as int) =~= bytes@);
        assert(letters@.take(i as int) =~= letters@);
    }
    true
}

} // verus!
