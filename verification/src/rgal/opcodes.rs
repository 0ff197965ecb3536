//! The mnemonics, by the shape of their operands. Each shape has its own
//! table; a mnemonic is looked up in the table of the shape that the
//! operands have.
use crate::rgal::{error_at, is_word, ParseError, ParseErrorKind, Span};
use crate::shared::{Instruction, OperandValueType};
use vstd::prelude::*;
use vstd::string::StringSliceAdditionalSpecFns;

verus! {

/// The error for a mnemonic that a table does not hold.
pub open spec fn unknown(span: Span) -> ParseError {
    error_at(span, ParseErrorKind::InvalidInstruction)
}

/// The instructions without operands.
pub open spec fn no_operand_opcodes(
    span: Span,
    opcode: Seq<u8>,
) -> Result<Instruction, ParseError> {
    if opcode == "SCR".spec_bytes() {
        Ok(Instruction::SCR)
    } else if opcode == "RECV".spec_bytes() {
        Ok(Instruction::RECV)
    } else if opcode == "TXBS".spec_bytes() {
        Ok(Instruction::TXBS)
    } else if opcode == "RXBS".spec_bytes() {
        Ok(Instruction::RXBS)
    } else if opcode == "NOP".spec_bytes() {
        Ok(Instruction::NOP)
    } else if opcode == "WRX".spec_bytes() {
        Ok(Instruction::WRX)
    } else if opcode == "HLT".spec_bytes() {
        Ok(Instruction::HLT)
    } else if opcode == "RTS".spec_bytes() {
        Ok(Instruction::RTS)
    } else {
        Err(unknown(span))
    }
}

/// Look the mnemonic up: see [`no_operand_opcodes`].
pub fn parse_no_operand_opcodes(
    span: Span,
    opcode: &[u8],
) -> (result: Result<Instruction, ParseError>)
    ensures
        result == no_operand_opcodes(span, opcode@),
{
    if is_word(opcode, "SCR") {
        Ok(Instruction::SCR)
    } else if is_word(opcode, "RECV") {
        Ok(Instruction::RECV)
    } else if is_word(opcode, "TXBS") {
        Ok(Instruction::TXBS)
    } else if is_word(opcode, "RXBS") {
        Ok(Instruction::RXBS)
    } else if is_word(opcode, "NOP") {
        Ok(Instruction::NOP)
    } else if is_word(opcode, "WRX") {
        Ok(Instruction::WRX)
    } else if is_word(opcode, "HLT") {
        Ok(Instruction::HLT)
    } else if is_word(opcode, "RTS") {
        Ok(Instruction::RTS)
    } else {
        Err(
            ParseError {
                line: span.line,
                column: span.column,
                kind: ParseErrorKind::InvalidInstruction,
            },
        )
    }
}

/// The instructions with one register operand.
/// With an operand of the wrong kind the error says what the shape wants.
pub open spec fn single_register_operand_opcodes(
    span: Span,
    opcode: Seq<u8>,
    operand_value_type: OperandValueType,
) -> Result<Instruction, ParseError> {
    match operand_value_type {
        OperandValueType::Register(operand_value_type) => if opcode == "POP".spec_bytes() {
            Ok(Instruction::POP(operand_value_type))
        } else if opcode == "RSP".spec_bytes() {
            Ok(Instruction::RSP(operand_value_type))
        } else if opcode == "NOT".spec_bytes() {
            Ok(Instruction::NOT(operand_value_type))
        } else if opcode == "INC".spec_bytes() {
            Ok(Instruction::INC(operand_value_type))
        } else if opcode == "DEC".spec_bytes() {
            Ok(Instruction::DEC(operand_value_type))
        } else if opcode == "DPRW".spec_bytes() {
            Ok(Instruction::DPRW(operand_value_type))
        } else {
            Err(unknown(span))
        },
        _ => Err(error_at(span, ParseErrorKind::ExpectedSingleRegister)),
    }
}

/// Look the mnemonic up: see [`single_register_operand_opcodes`].
pub fn parse_single_register_operand_opcodes(
    span: Span,
    opcode: &[u8],
    operand_value_type: OperandValueType,
) -> (result: Result<Instruction, ParseError>)
    ensures
        result == single_register_operand_opcodes(span, opcode@, operand_value_type),
{
    let operand_value_type = match operand_value_type {
        OperandValueType::Register(register) => register,
        _ => return Err(
            ParseError {
                line: span.line,
                column: span.column,
                kind: ParseErrorKind::ExpectedSingleRegister,
            },
        ),
    };
    if is_word(opcode, "POP") {
        Ok(Instruction::POP(operand_value_type))
    } else if is_word(opcode, "RSP") {
        Ok(Instruction::RSP(operand_value_type))
    } else if is_word(opcode, "NOT") {
        Ok(Instruction::NOT(operand_value_type))
    } else if is_word(opcode, "INC") {
        Ok(Instruction::INC(operand_value_type))
    } else if is_word(opcode, "DEC") {
        Ok(Instruction::DEC(operand_value_type))
    } else if is_word(opcode, "DPRW") {
        Ok(Instruction::DPRW(operand_value_type))
    } else {
        Err(
            ParseError {
                line: span.line,
                column: span.column,
                kind: ParseErrorKind::InvalidInstruction,
            },
        )
    }
}

/// The instructions with one operand of any kind.
pub open spec fn single_value_operand_opcodes(
    span: Span,
    opcode: Seq<u8>,
    operand_value_type: OperandValueType,
) -> Result<Instruction, ParseError> {
    if opcode == "PUSH".spec_bytes() {
        Ok(Instruction::PUSH(operand_value_type))
    } else if opcode == "DPWW".spec_bytes() {
        Ok(Instruction::DPWW(operand_value_type))
    } else if opcode == "JMP".spec_bytes() {
        Ok(Instruction::JMP(operand_value_type))
    } else if opcode == "JPR".spec_bytes() {
        Ok(Instruction::JPR(operand_value_type))
    } else if opcode == "JSR".spec_bytes() {
        Ok(Instruction::JSR(operand_value_type))
    } else if opcode == "SLP".spec_bytes() {
        Ok(Instruction::SLP(operand_value_type))
    } else {
        Err(unknown(span))
    }
}

/// Look the mnemonic up: see [`single_value_operand_opcodes`].
pub fn parse_single_value_operand_opcodes(
    span: Span,
    opcode: &[u8],
    operand_value_type: OperandValueType,
) -> (result: Result<Instruction, ParseError>)
    ensures
        result == single_value_operand_opcodes(span, opcode@, operand_value_type),
{
    if is_word(opcode, "PUSH") {
        Ok(Instruction::PUSH(operand_value_type))
    } else if is_word(opcode, "DPWW") {
        Ok(Instruction::DPWW(operand_value_type))
    } else if is_word(opcode, "JMP") {
        Ok(Instruction::JMP(operand_value_type))
    } else if is_word(opcode, "JPR") {
        Ok(Instruction::JPR(operand_value_type))
    } else if is_word(opcode, "JSR") {
        Ok(Instruction::JSR(operand_value_type))
    } else if is_word(opcode, "SLP") {
        Ok(Instruction::SLP(operand_value_type))
    } else {
        Err(
            ParseError {
                line: span.line,
                column: span.column,
                kind: ParseErrorKind::InvalidInstruction,
            },
        )
    }
}

/// The instructions with two register operands.
/// With an operand of the wrong kind the error says what the shape wants.
pub open spec fn two_register_operand_opcodes(
    span: Span,
    opcode: Seq<u8>,
    register_a: OperandValueType,
    register_b: OperandValueType,
) -> Result<Instruction, ParseError> {
    match (register_a, register_b) {
        (
            OperandValueType::Register(register_a),
            OperandValueType::Register(register_b),
        ) => if opcode == "ADD".spec_bytes() {
            Ok(Instruction::ADD(register_a, register_b))
        } else if opcode == "SUB".spec_bytes() {
            Ok(Instruction::SUB(register_a, register_b))
        } else if opcode == "MUL".spec_bytes() {
            Ok(Instruction::MUL(register_a, register_b))
        } else if opcode == "DIV".spec_bytes() {
            Ok(Instruction::DIV(register_a, register_b))
        } else if opcode == "MOD".spec_bytes() {
            Ok(Instruction::MOD(register_a, register_b))
        } else if opcode == "AND".spec_bytes() {
            Ok(Instruction::AND(register_a, register_b))
        } else if opcode == "OR".spec_bytes() {
            Ok(Instruction::OR(register_a, register_b))
        } else if opcode == "XOR".spec_bytes() {
            Ok(Instruction::XOR(register_a, register_b))
        } else if opcode == "RCY".spec_bytes() {
            Ok(Instruction::RCY(register_a, register_b))
        } else if opcode == "RMV".spec_bytes() {
            Ok(Instruction::RMV(register_a, register_b))
        } else {
            Err(unknown(span))
        },
        _ => Err(error_at(span, ParseErrorKind::ExpectedTwoRegisters)),
    }
}

/// Look the mnemonic up: see [`two_register_operand_opcodes`].
pub fn parse_two_register_operand_opcodes(
    span: Span,
    opcode: &[u8],
    register_a: OperandValueType,
    register_b: OperandValueType,
) -> (result: Result<Instruction, ParseError>)
    ensures
        result == two_register_operand_opcodes(span, opcode@, register_a, register_b),
{
    let (register_a, register_b) = match (register_a, register_b) {
        (OperandValueType::Register(first), OperandValueType::Register(second)) => (first, second),
        _ => return Err(
            ParseError {
                line: span.line,
                column: span.column,
                kind: ParseErrorKind::ExpectedTwoRegisters,
            },
        ),
    };
    if is_word(opcode, "ADD") {
        Ok(Instruction::ADD(register_a, register_b))
    } else if is_word(opcode, "SUB") {
        Ok(Instruction::SUB(register_a, register_b))
    } else if is_word(opcode, "MUL") {
        Ok(Instruction::MUL(register_a, register_b))
    } else if is_word(opcode, "DIV") {
        Ok(Instruction::DIV(register_a, register_b))
    } else if is_word(opcode, "MOD") {
        Ok(Instruction::MOD(register_a, register_b))
    } else if is_word(opcode, "AND") {
        Ok(Instruction::AND(register_a, register_b))
    } else if is_word(opcode, "OR") {
        Ok(Instruction::OR(register_a, register_b))
    } else if is_word(opcode, "XOR") {
        Ok(Instruction::XOR(register_a, register_b))
    } else if is_word(opcode, "RCY") {
        Ok(Instruction::RCY(register_a, register_b))
    } else if is_word(opcode, "RMV") {
        Ok(Instruction::RMV(register_a, register_b))
    } else {
        Err(
            ParseError {
                line: span.line,
                column: span.column,
                kind: ParseErrorKind::InvalidInstruction,
            },
        )
    }
}

/// The instructions with a register operand and then an operand of any kind.
/// With an operand of the wrong kind the error says what the shape wants.
pub open spec fn register_value_operand_opcodes(
    span: Span,
    opcode: Seq<u8>,
    register: OperandValueType,
    value: OperandValueType,
) -> Result<Instruction, ParseError> {
    match register {
        OperandValueType::Register(register) => if opcode == "PEEK".spec_bytes() {
            Ok(Instruction::PEEK(register, value))
        } else if opcode == "XMIT".spec_bytes() {
            Ok(Instruction::XMIT(register, value))
        } else if opcode == "LDR".spec_bytes() {
            Ok(Instruction::LDR(register, value))
        } else if opcode == "DPR".spec_bytes() {
            Ok(Instruction::DPR(register, value))
        } else if opcode == "APR".spec_bytes() {
            Ok(Instruction::APR(register, value))
        } else {
            Err(unknown(span))
        },
        _ => Err(error_at(span, ParseErrorKind::ExpectedRegisterAndValue)),
    }
}

/// Look the mnemonic up: see [`register_value_operand_opcodes`].
pub fn parse_register_value_operand_opcodes(
    span: Span,
    opcode: &[u8],
    register: OperandValueType,
    value: OperandValueType,
) -> (result: Result<Instruction, ParseError>)
    ensures
        result == register_value_operand_opcodes(span, opcode@, register, value),
{
    let register = match register {
        OperandValueType::Register(register) => register,
        _ => return Err(
            ParseError {
                line: span.line,
                column: span.column,
                kind: ParseErrorKind::ExpectedRegisterAndValue,
            },
        ),
    };
    if is_word(opcode, "PEEK") {
        Ok(Instruction::PEEK(register, value))
    } else if is_word(opcode, "XMIT") {
        Ok(Instruction::XMIT(register, value))
    } else if is_word(opcode, "LDR") {
        Ok(Instruction::LDR(register, value))
    } else if is_word(opcode, "DPR") {
        Ok(Instruction::DPR(register, value))
    } else if is_word(opcode, "APR") {
        Ok(Instruction::APR(register, value))
    } else {
        Err(
            ParseError {
                line: span.line,
                column: span.column,
                kind: ParseErrorKind::InvalidInstruction,
            },
        )
    }
}

/// The instructions with an operand of any kind and then a register operand.
/// With an operand of the wrong kind the error says what the shape wants.
pub open spec fn value_register_operand_opcodes(
    span: Span,
    opcode: Seq<u8>,
    value: OperandValueType,
    register: OperandValueType,
) -> Result<Instruction, ParseError> {
    match register {
        OperandValueType::Register(register) => if opcode == "BEZ".spec_bytes() {
            Ok(Instruction::BEZ(value, register))
        } else if opcode == "BNZ".spec_bytes() {
            Ok(Instruction::BNZ(value, register))
        } else if opcode == "BREZ".spec_bytes() {
            Ok(Instruction::BREZ(value, register))
        } else if opcode == "BRNZ".spec_bytes() {
            Ok(Instruction::BRNZ(value, register))
        } else {
            Err(unknown(span))
        },
        _ => Err(error_at(span, ParseErrorKind::ExpectedRegisterAndValue)),
    }
}

/// Look the mnemonic up: see [`value_register_operand_opcodes`].
pub fn parse_value_register_operand_opcodes(
    span: Span,
    opcode: &[u8],
    value: OperandValueType,
    register: OperandValueType,
) -> (result: Result<Instruction, ParseError>)
    ensures
        result == value_register_operand_opcodes(span, opcode@, value, register),
{
    let register = match register {
        OperandValueType::Register(register) => register,
        _ => return Err(
            ParseError {
                line: span.line,
                column: span.column,
                kind: ParseErrorKind::ExpectedRegisterAndValue,
            },
        ),
    };
    if is_word(opcode, "BEZ") {
        Ok(Instruction::BEZ(value, register))
    } else if is_word(opcode, "BNZ") {
        Ok(Instruction::BNZ(value, register))
    } else if is_word(opcode, "BREZ") {
        Ok(Instruction::BREZ(value, register))
    } else if is_word(opcode, "BRNZ") {
        Ok(Instruction::BRNZ(value, register))
    } else {
        Err(
            ParseError {
                line: span.line,
                column: span.column,
                kind: ParseErrorKind::InvalidInstruction,
            },
        )
    }
}

/// The instructions with two operands of any kind.
pub open spec fn two_value_operand_opcodes(
    span: Span,
    opcode: Seq<u8>,
    operand_a: OperandValueType,
    operand_b: OperandValueType,
) -> Result<Instruction, ParseError> {
    if opcode == "STM".spec_bytes() {
        Ok(Instruction::STM(operand_a, operand_b))
    } else if opcode == "DPW".spec_bytes() {
        Ok(Instruction::DPW(operand_a, operand_b))
    } else if opcode == "APW".spec_bytes() {
        Ok(Instruction::APW(operand_a, operand_b))
    } else {
        Err(unknown(span))
    }
}

/// Look the mnemonic up: see [`two_value_operand_opcodes`].
pub fn parse_two_value_operand_opcodes(
    span: Span,
    opcode: &[u8],
    operand_a: OperandValueType,
    operand_b: OperandValueType,
) -> (result: Result<Instruction, ParseError>)
    ensures
        result == two_value_operand_opcodes(span, opcode@, operand_a, operand_b),
{
    if is_word(opcode, "STM") {
        Ok(Instruction::STM(operand_a, operand_b))
    } else if is_word(opcode, "DPW") {
        Ok(Instruction::DPW(operand_a, operand_b))
    } else if is_word(opcode, "APW") {
        Ok(Instruction::APW(operand_a, operand_b))
    } else {
        Err(
            ParseError {
                line: span.line,
                column: span.column,
                kind: ParseErrorKind::InvalidInstruction,
            },
        )
    }
}

/// The instructions with two register operands and then an operand of any
/// kind.
/// With an operand of the wrong kind the error says what the shape wants.
pub open spec fn two_register_value_operand_opcodes(
    span: Span,
    opcode: Seq<u8>,
    register_a: OperandValueType,
    register_b: OperandValueType,
    value: OperandValueType,
) -> Result<Instruction, ParseError> {
    match (register_a, register_b) {
        (
            OperandValueType::Register(register_a),
            OperandValueType::Register(register_b),
        ) => if opcode == "SLL".spec_bytes() {
            Ok(Instruction::SLL(register_a, register_b, value))
        } else if opcode == "SLC".spec_bytes() {
            Ok(Instruction::SLC(register_a, register_b, value))
        } else if opcode == "SLR".spec_bytes() {
            Ok(Instruction::SLR(register_a, register_b, value))
        } else if opcode == "SRC".spec_bytes() {
            Ok(Instruction::SRC(register_a, register_b, value))
        } else if opcode == "ROL".spec_bytes() {
            Ok(Instruction::ROL(register_a, register_b, value))
        } else if opcode == "ROR".spec_bytes() {
            Ok(Instruction::ROR(register_a, register_b, value))
        } else {
            Err(unknown(span))
        },
        _ => Err(error_at(span, ParseErrorKind::ExpectedTwoRegistersAndValue)),
    }
}

/// Look the mnemonic up: see [`two_register_value_operand_opcodes`].
pub fn parse_two_register_value_operand_opcodes(
    span: Span,
    opcode: &[u8],
    register_a: OperandValueType,
    register_b: OperandValueType,
    value: OperandValueType,
) -> (result: Result<Instruction, ParseError>)
    ensures
        result == two_register_value_operand_opcodes(span, opcode@, register_a, register_b, value),
{
    let (register_a, register_b) = match (register_a, register_b) {
        (OperandValueType::Register(first), OperandValueType::Register(second)) => (first, second),
        _ => return Err(
            ParseError {
                line: span.line,
                column: span.column,
                kind: ParseErrorKind::ExpectedTwoRegistersAndValue,
            },
        ),
    };
    if is_word(opcode, "SLL") {
        Ok(Instruction::SLL(register_a, register_b, value))
    } else if is_word(opcode, "SLC") {
        Ok(Instruction::SLC(register_a, register_b, value))
    } else if is_word(opcode, "SLR") {
        Ok(Instruction::SLR(register_a, register_b, value))
    } else if is_word(opcode, "SRC") {
        Ok(Instruction::SRC(register_a, register_b, value))
    } else if is_word(opcode, "ROL") {
        Ok(Instruction::ROL(register_a, register_b, value))
    } else if is_word(opcode, "ROR") {
        Ok(Instruction::ROR(register_a, register_b, value))
    } else {
        Err(
            ParseError {
                line: span.line,
                column: span.column,
                kind: ParseErrorKind::InvalidInstruction,
            },
        )
    }
}

/// The instructions with a register operand, an operand of any kind and a
/// register operand.
/// With an operand of the wrong kind the error says what the shape wants.
pub open spec fn register_value_register_operand_opcodes(
    span: Span,
    opcode: Seq<u8>,
    register_a: OperandValueType,
    value: OperandValueType,
    register_b: OperandValueType,
) -> Result<Instruction, ParseError> {
    match (register_a, register_b) {
        (
            OperandValueType::Register(register_a),
            OperandValueType::Register(register_b),
        ) => if opcode == "LDO".spec_bytes() {
            Ok(Instruction::LDO(register_a, value, register_b))
        } else if opcode == "LDOI".spec_bytes() {
            Ok(Instruction::LDOI(register_a, value, register_b))
        } else {
            Err(unknown(span))
        },
        _ => Err(error_at(span, ParseErrorKind::ExpectedRegisterValueRegister)),
    }
}

/// Look the mnemonic up: see [`register_value_register_operand_opcodes`].
pub fn parse_register_value_register_operand_opcodes(
    span: Span,
    opcode: &[u8],
    register_a: OperandValueType,
    value: OperandValueType,
    register_b: OperandValueType,
) -> (result: Result<Instruction, ParseError>)
    ensures
        result == register_value_register_operand_opcodes(
            span,
            opcode@,
            register_a,
            value,
            register_b,
        ),
{
    let (register_a, register_b) = match (register_a, register_b) {
        (OperandValueType::Register(first), OperandValueType::Register(second)) => (first, second),
        _ => return Err(
            ParseError {
                line: span.line,
                column: span.column,
                kind: ParseErrorKind::ExpectedRegisterValueRegister,
            },
        ),
    };
    if is_word(opcode, "LDO") {
        Ok(Instruction::LDO(register_a, value, register_b))
    } else if is_word(opcode, "LDOI") {
        Ok(Instruction::LDOI(register_a, value, register_b))
    } else {
        Err(
            ParseError {
                line: span.line,
                column: span.column,
                kind: ParseErrorKind::InvalidInstruction,
            },
        )
    }
}

/// The instructions with a register operand and then two operands of any
/// kind: there is none yet.
/// With an operand of the wrong kind the error says what the shape wants.
pub open spec fn register_value_value_operand_opcodes(
    span: Span,
    opcode: Seq<u8>,
    register: OperandValueType,
    value_a: OperandValueType,
    value_b: OperandValueType,
) -> Result<Instruction, ParseError> {
    match register {
        OperandValueType::Register(register) => Err(unknown(span)),
        _ => Err(error_at(span, ParseErrorKind::ExpectedRegisterValueRegister)),
    }
}

/// Look the mnemonic up: see [`register_value_value_operand_opcodes`].
pub fn parse_register_value__value_operand_opcodes(
    span: Span,
    opcode: &[u8],
    register: OperandValueType,
    value_a: OperandValueType,
    value_b: OperandValueType,
) -> (result: Result<Instruction, ParseError>)
    ensures
        result == register_value_value_operand_opcodes(span, opcode@, register, value_a, value_b),
{
    let register = match register {
        OperandValueType::Register(register) => register,
        _ => return Err(
            ParseError {
                line: span.line,
                column: span.column,
                kind: ParseErrorKind::ExpectedRegisterValueRegister,
            },
        ),
    };
    Err(
        ParseError {
            line: span.line,
            column: span.column,
            kind: ParseErrorKind::InvalidInstruction,
        },
    )
}

/// The instructions with an operand of any kind, a register operand and an
/// operand of any kind.
/// With an operand of the wrong kind the error says what the shape wants.
pub open spec fn value_register_value_operand_opcodes(
    span: Span,
    opcode: Seq<u8>,
    value_a: OperandValueType,
    register: OperandValueType,
    value_b: OperandValueType,
) -> Result<Instruction, ParseError> {
    match register {
        OperandValueType::Register(register) => if opcode == "BEQ".spec_bytes() {
            Ok(Instruction::BEQ(value_a, register, value_b))
        } else if opcode == "BNE".spec_bytes() {
            Ok(Instruction::BNE(value_a, register, value_b))
        } else if opcode == "BGE".spec_bytes() {
            Ok(Instruction::BGE(value_a, register, value_b))
        } else if opcode == "BLE".spec_bytes() {
            Ok(Instruction::BLE(value_a, register, value_b))
        } else if opcode == "BGT".spec_bytes() {
            Ok(Instruction::BGT(value_a, register, value_b))
        } else if opcode == "BLT".spec_bytes() {
            Ok(Instruction::BLT(value_a, register, value_b))
        } else if opcode == "BREQ".spec_bytes() {
            Ok(Instruction::BREQ(value_a, register, value_b))
        } else if opcode == "BRNE".spec_bytes() {
            Ok(Instruction::BRNE(value_a, register, value_b))
        } else if opcode == "BRGE".spec_bytes() {
            Ok(Instruction::BRGE(value_a, register, value_b))
        } else if opcode == "BRLE".spec_bytes() {
            Ok(Instruction::BRLE(value_a, register, value_b))
        } else if opcode == "BRGT".spec_bytes() {
            Ok(Instruction::BRGT(value_a, register, value_b))
        } else if opcode == "BRLT".spec_bytes() {
            Ok(Instruction::BRLT(value_a, register, value_b))
        } else {
            Err(unknown(span))
        },
        _ => Err(error_at(span, ParseErrorKind::ExpectedValueRegisterValue)),
    }
}

/// Look the mnemonic up: see [`value_register_value_operand_opcodes`].
pub fn parse_value_register_value_operand_opcodes(
    span: Span,
    opcode: &[u8],
    value_a: OperandValueType,
    register: OperandValueType,
    value_b: OperandValueType,
) -> (result: Result<Instruction, ParseError>)
    ensures
        result == value_register_value_operand_opcodes(span, opcode@, value_a, register, value_b),
{
    let register = match register {
        OperandValueType::Register(register) => register,
        _ => return Err(
            ParseError {
                line: span.line,
                column: span.column,
                kind: ParseErrorKind::ExpectedValueRegisterValue,
            },
        ),
    };
    if is_word(opcode, "BEQ") {
        Ok(Instruction::BEQ(value_a, register, value_b))
    } else if is_word(opcode, "BNE") {
        Ok(Instruction::BNE(value_a, register, value_b))
    } else if is_word(opcode, "BGE") {
        Ok(Instruction::BGE(value_a, register, value_b))
    } else if is_word(opcode, "BLE") {
        Ok(Instruction::BLE(value_a, register, value_b))
    } else if is_word(opcode, "BGT") {
        Ok(Instruction::BGT(value_a, register, value_b))
    } else if is_word(opcode, "BLT") {
        Ok(Instruction::BLT(value_a, register, value_b))
    } else if is_word(opcode, "BREQ") {
        Ok(Instruction::BREQ(value_a, register, value_b))
    } else if is_word(opcode, "BRNE") {
        Ok(Instruction::BRNE(value_a, register, value_b))
    } else if is_word(opcode, "BRGE") {
        Ok(Instruction::BRGE(value_a, register, value_b))
    } else if is_word(opcode, "BRLE") {
        Ok(Instruction::BRLE(value_a, register, value_b))
    } else if is_word(opcode, "BRGT") {
        Ok(Instruction::BRGT(value_a, register, value_b))
    } else if is_word(opcode, "BRLT") {
        Ok(Instruction::BRLT(value_a, register, value_b))
    } else {
        Err(
            ParseError {
                line: span.line,
                column: span.column,
                kind: ParseErrorKind::InvalidInstruction,
            },
        )
    }
}

/// The instructions with two operands of any kind and then a register
/// operand.
/// With an operand of the wrong kind the error says what the shape wants.
pub open spec fn value_value_register_operand_opcodes(
    span: Span,
    opcode: Seq<u8>,
    value_a: OperandValueType,
    value_b: OperandValueType,
    register: OperandValueType,
) -> Result<Instruction, ParseError> {
    match register {
        OperandValueType::Register(register) => if opcode == "STMO".spec_bytes() {
            Ok(Instruction::STMO(value_a, value_b, register))
        } else if opcode == "SMOI".spec_bytes() {
            Ok(Instruction::SMOI(value_a, value_b, register))
        } else {
            Err(unknown(span))
        },
        _ => Err(error_at(span, ParseErrorKind::ExpectedRegisterAndValue)),
    }
}

/// Look the mnemonic up: see [`value_value_register_operand_opcodes`].
pub fn parse_value_value_register_operand_opcodes(
    span: Span,
    opcode: &[u8],
    value_a: OperandValueType,
    value_b: OperandValueType,
    register: OperandValueType,
) -> (result: Result<Instruction, ParseError>)
    ensures
        result == value_value_register_operand_opcodes(span, opcode@, value_a, value_b, register),
{
    let register = match register {
        OperandValueType::Register(register) => register,
        _ => return Err(
            ParseError {
                line: span.line,
                column: span.column,
                kind: ParseErrorKind::ExpectedRegisterAndValue,
            },
        ),
    };
    if is_word(opcode, "STMO") {
        Ok(Instruction::STMO(value_a, value_b, register))
    } else if is_word(opcode, "SMOI") {
        Ok(Instruction::SMOI(value_a, value_b, register))
    } else {
        Err(
            ParseError {
                line: span.line,
                column: span.column,
                kind: ParseErrorKind::InvalidInstruction,
            },
        )
    }
}

} // verus!
