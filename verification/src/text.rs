//! Text for the values of the instruction set: numbers in hexadecimal, the
//! names of registers, operands and mnemonics.
use crate::shared::{Instruction, OperandValueType, Register};
use vstd::prelude::*;
use vstd::string::StringExecFns;

verus! {

/// `n` copies of `text` in a row.
pub open spec fn repeated(text: Seq<char>, n: nat) -> Seq<char>
    decreases n,
{
    if n == 0 {
        Seq::empty()
    } else {
        repeated(text, (n - 1) as nat) + text
    }
}

/// The character for the digit `d`, up to fifteen; the letters are upper
/// case if `upper`, else lower case.
pub open spec fn digit_char(d: nat, upper: bool) -> char {
    if d == 0 {
        '0'
    } else if d == 1 {
        '1'
    } else if d == 2 {
        '2'
    } else if d == 3 {
        '3'
    } else if d == 4 {
        '4'
    } else if d == 5 {
        '5'
    } else if d == 6 {
        '6'
    } else if d == 7 {
        '7'
    } else if d == 8 {
        '8'
    } else if d == 9 {
        '9'
    } else if d == 10 {
        if upper {
            'A'
        } else {
            'a'
        }
    } else if d == 11 {
        if upper {
            'B'
        } else {
            'b'
        }
    } else if d == 12 {
        if upper {
            'C'
        } else {
            'c'
        }
    } else if d == 13 {
        if upper {
            'D'
        } else {
            'd'
        }
    } else if d == 14 {
        if upper {
            'E'
        } else {
            'e'
        }
    } else {
        if upper {
            'F'
        } else {
            'f'
        }
    }
}

/// The hexadecimal digits of `value`, without leading zeros.
pub open spec fn hex_digits(value: nat, upper: bool) -> Seq<char>
    decreases value,
{
    if value < 16 {
        seq![digit_char(value, upper)]
    } else {
        hex_digits(value / 16, upper).push(digit_char(value % 16, upper))
    }
}

/// `value` in hexadecimal, with zeros in front up to `width` digits.
pub open spec fn hex(value: nat, width: nat, upper: bool) -> Seq<char> {
    if hex_digits(value, upper).len() >= width {
        hex_digits(value, upper)
    } else {
        repeated("0"@, (width - hex_digits(value, upper).len()) as nat) + hex_digits(value, upper)
    }
}

/// The name of a register.
pub open spec fn register_name(register: Register) -> Seq<char> {
    match register {
        Register::A => "A"@,
        Register::X => "X"@,
        Register::Y => "Y"@,
        Register::R0 => "R0"@,
        Register::R1 => "R1"@,
        Register::R2 => "R2"@,
        Register::R3 => "R3"@,
        Register::R4 => "R4"@,
        Register::R5 => "R5"@,
        Register::R6 => "R6"@,
    }
}

/// An operand as text: a register by its name, an immediate as four
/// hexadecimal digits in upper case.
pub open spec fn operand_text(operand: OperandValueType) -> Seq<char> {
    match operand {
        OperandValueType::Register(register) => register_name(register),
        OperandValueType::Immediate(value) => hex(value as nat, 4, true),
    }
}

/// The mnemonic of an instruction.
pub open spec fn mnemonic_text(instruction: Instruction) -> Seq<char> {
    match instruction {
        Instruction::PUSH(_) => "PUSH"@,
        Instruction::POP(_) => "POP"@,
        Instruction::PEEK(_, _) => "PEEK"@,
        Instruction::SCR => "SCR"@,
        Instruction::RSP(_) => "RSP"@,
        Instruction::XMIT(_, _) => "XMIT"@,
        Instruction::RECV => "RECV"@,
        Instruction::TXBS => "TXBS"@,
        Instruction::RXBS => "RXBS"@,
        Instruction::ADD(_, _) => "ADD"@,
        Instruction::SUB(_, _) => "SUB"@,
        Instruction::MUL(_, _) => "MUL"@,
        Instruction::DIV(_, _) => "DIV"@,
        Instruction::MOD(_, _) => "MOD"@,
        Instruction::AND(_, _) => "AND"@,
        Instruction::OR(_, _) => "OR"@,
        Instruction::XOR(_, _) => "XOR"@,
        Instruction::NOT(_) => "NOT"@,
        Instruction::INC(_) => "INC"@,
        Instruction::DEC(_) => "DEC"@,
        Instruction::SLL(_, _, _) => "SLL"@,
        Instruction::SLC(_, _, _) => "SLC"@,
        Instruction::SLR(_, _, _) => "SLR"@,
        Instruction::SRC(_, _, _) => "SRC"@,
        Instruction::ROL(_, _, _) => "ROL"@,
        Instruction::ROR(_, _, _) => "ROR"@,
        Instruction::RCY(_, _) => "RCY"@,
        Instruction::RMV(_, _) => "RMV"@,
        Instruction::LDR(_, _) => "LDR"@,
        Instruction::LDO(_, _, _) => "LDO"@,
        Instruction::LDOI(_, _, _) => "LDOI"@,
        Instruction::STM(_, _) => "STM"@,
        Instruction::STMO(_, _, _) => "STMO"@,
        Instruction::SMOI(_, _, _) => "SMOI"@,
        Instruction::DPW(_, _) => "DPW"@,
        Instruction::DPR(_, _) => "DPR"@,
        Instruction::DPWW(_) => "DPWW"@,
        Instruction::DPRW(_) => "DPRW"@,
        Instruction::APW(_, _) => "APW"@,
        Instruction::APR(_, _) => "APR"@,
        Instruction::NOP => "NOP"@,
        Instruction::SLP(_) => "SLP"@,
        Instruction::WRX => "WRX"@,
        Instruction::HLT => "HLT"@,
        Instruction::JMP(_) => "JMP"@,
        Instruction::BEZ(_, _) => "BEZ"@,
        Instruction::BNZ(_, _) => "BNZ"@,
        Instruction::BEQ(_, _, _) => "BEQ"@,
        Instruction::BNE(_, _, _) => "BNE"@,
        Instruction::BGE(_, _, _) => "BGE"@,
        Instruction::BLE(_, _, _) => "BLE"@,
        Instruction::BGT(_, _, _) => "BGT"@,
        Instruction::BLT(_, _, _) => "BLT"@,
        Instruction::JPR(_) => "JPR"@,
        Instruction::BREZ(_, _) => "BREZ"@,
        Instruction::BRNZ(_, _) => "BRNZ"@,
        Instruction::BREQ(_, _, _) => "BREQ"@,
        Instruction::BRNE(_, _, _) => "BRNE"@,
        Instruction::BRGE(_, _, _) => "BRGE"@,
        Instruction::BRLE(_, _, _) => "BRLE"@,
        Instruction::BRGT(_, _, _) => "BRGT"@,
        Instruction::BRLT(_, _, _) => "BRLT"@,
        Instruction::JSR(_) => "JSR"@,
        Instruction::RTS => "RTS"@,
    }
}

/// Append `n` copies of `text`.
pub fn push_repeated(out: &mut String, text: &str, n: usize)
    ensures
        final(out)@ == old(out)@ + repeated(text@, n as nat),
{
    let mut i: usize = 0;
    proof {
        assert(out@ + repeated(text@, 0) =~= out@);
    }
    while i < n
        invariant
            i <= n,
            out@ == old(out)@ + repeated(text@, i as nat),
        decreases n - i,
    {
        out.append(text);
        i += 1;
        proof {
            assert(out@ =~= old(out)@ + repeated(text@, i as nat));
        }
    }
}

/// The text of the digit `d`.
pub fn digit_text(d: usize, upper: bool) -> (text: &'static str)
    requires
        d < 16,
    ensures
        text@ == seq![digit_char(d as nat, upper)],
{
    proof {
        reveal_strlit("0");
        reveal_strlit("1");
        reveal_strlit("2");
        reveal_strlit("3");
        reveal_strlit("4");
        reveal_strlit("5");
        reveal_strlit("6");
        reveal_strlit("7");
        reveal_strlit("8");
        reveal_strlit("9");
        reveal_strlit("a");
        reveal_strlit("A");
        reveal_strlit("b");
        reveal_strlit("B");
        reveal_strlit("c");
        reveal_strlit("C");
        reveal_strlit("d");
        reveal_strlit("D");
        reveal_strlit("e");
        reveal_strlit("E");
        reveal_strlit("f");
        reveal_strlit("F");
    }
    if d == 0 {
        "0"
    } else if d == 1 {
        "1"
    } else if d == 2 {
        "2"
    } else if d == 3 {
        "3"
    } else if d == 4 {
        "4"
    } else if d == 5 {
        "5"
    } else if d == 6 {
        "6"
    } else if d == 7 {
        "7"
    } else if d == 8 {
        "8"
    } else if d == 9 {
        "9"
    } else if d == 10 {
        if upper {
            "A"
        } else {
            "a"
        }
    } else if d == 11 {
        if upper {
            "B"
        } else {
            "b"
        }
    } else if d == 12 {
        if upper {
            "C"
        } else {
            "c"
        }
    } else if d == 13 {
        if upper {
            "D"
        } else {
            "d"
        }
    } else if d == 14 {
        if upper {
            "E"
        } else {
            "e"
        }
    } else {
        if upper {
            "F"
        } else {
            "f"
        }
    }
}

/// How many hexadecimal digits `value` has.
pub fn hex_length(value: usize) -> (n: usize)
    ensures
        n == hex_digits(value as nat, false).len(),
        n == hex_digits(value as nat, true).len(),
        1 <= n <= value + 1,
    decreases value,
{
    if value < 16 {
        1
    } else {
        1 + hex_length(value / 16)
    }
}

/// Append the hexadecimal digits of `value`.
pub fn push_hex_digits(out: &mut String, value: usize, upper: bool)
    ensures
        final(out)@ == old(out)@ + hex_digits(value as nat, upper),
    decreases value,
{
    if value >= 16 {
        push_hex_digits(out, value / 16, upper);
    }
    out.append(digit_text(value % 16, upper));
    proof {
        assert(out@ =~= old(out)@ + hex_digits(value as nat, upper));
    }
}

/// Append `value` in hexadecimal, with zeros in front up to `width` digits.
pub fn push_hex(out: &mut String, value: usize, width: usize, upper: bool)
    ensures
        final(out)@ == old(out)@ + hex(value as nat, width as nat, upper),
{
    let length = hex_length(value);
    if length < width {
        push_repeated(out, "0", width - length);
    }
    push_hex_digits(out, value, upper);
    proof {
        assert(out@ =~= old(out)@ + hex(value as nat, width as nat, upper));
    }
}

impl Register {
    /// The name of the register.
    pub fn name(&self) -> (text: &'static str)
        ensures
            text@ == register_name(*self),
    {
        match self {
            Register::A => "A",
            Register::X => "X",
            Register::Y => "Y",
            Register::R0 => "R0",
            Register::R1 => "R1",
            Register::R2 => "R2",
            Register::R3 => "R3",
            Register::R4 => "R4",
            Register::R5 => "R5",
            Register::R6 => "R6",
        }
    }
}

impl OperandValueType {
    /// The operand as text: see [`operand_text`].
    pub fn to_text(&self) -> (text: String)
        ensures
            text@ == operand_text(*self),
    {
        let mut out = String::new();
        match self {
            OperandValueType::Register(register) => {
                out.append(register.name());
            },
            OperandValueType::Immediate(value) => {
                push_hex(&mut out, *value as usize, 4, true);
            },
        }
        proof {
            assert(Seq::<char>::empty() + operand_text(*self) =~= operand_text(*self));
        }
        out
    }
}

impl Instruction {
    /// The mnemonic of the instruction.
    pub fn mnemonic(&self) -> (text: &'static str)
        ensures
            text@ == mnemonic_text(*self),
    {
        match self {
            Instruction::PUSH(_) => "PUSH",
            Instruction::POP(_) => "POP",
            Instruction::PEEK(_, _) => "PEEK",
            Instruction::SCR => "SCR",
            Instruction::RSP(_) => "RSP",
            Instruction::XMIT(_, _) => "XMIT",
            Instruction::RECV => "RECV",
            Instruction::TXBS => "TXBS",
            Instruction::RXBS => "RXBS",
            Instruction::ADD(_, _) => "ADD",
            Instruction::SUB(_, _) => "SUB",
            Instruction::MUL(_, _) => "MUL",
            Instruction::DIV(_, _) => "DIV",
            Instruction::MOD(_, _) => "MOD",
            Instruction::AND(_, _) => "AND",
            Instruction::OR(_, _) => "OR",
            Instruction::XOR(_, _) => "XOR",
            Instruction::NOT(_) => "NOT",
            Instruction::INC(_) => "INC",
            Instruction::DEC(_) => "DEC",
            Instruction::SLL(_, _, _) => "SLL",
            Instruction::SLC(_, _, _) => "SLC",
            Instruction::SLR(_, _, _) => "SLR",
            Instruction::SRC(_, _, _) => "SRC",
            Instruction::ROL(_, _, _) => "ROL",
            Instruction::ROR(_, _, _) => "ROR",
            Instruction::RCY(_, _) => "RCY",
            Instruction::RMV(_, _) => "RMV",
            Instruction::LDR(_, _) => "LDR",
            Instruction::LDO(_, _, _) => "LDO",
            Instruction::LDOI(_, _, _) => "LDOI",
            Instruction::STM(_, _) => "STM",
            Instruction::STMO(_, _, _) => "STMO",
            Instruction::SMOI(_, _, _) => "SMOI",
            Instruction::DPW(_, _) => "DPW",
            Instruction::DPR(_, _) => "DPR",
            Instruction::DPWW(_) => "DPWW",
            Instruction::DPRW(_) => "DPRW",
            Instruction::APW(_, _) => "APW",
            Instruction::APR(_, _) => "APR",
            Instruction::NOP => "NOP",
            Instruction::SLP(_) => "SLP",
            Instruction::WRX => "WRX",
            Instruction::HLT => "HLT",
            Instruction::JMP(_) => "JMP",
            Instruction::BEZ(_, _) => "BEZ",
            Instruction::BNZ(_, _) => "BNZ",
            Instruction::BEQ(_, _, _) => "BEQ",
            Instruction::BNE(_, _, _) => "BNE",
            Instruction::BGE(_, _, _) => "BGE",
            Instruction::BLE(_, _, _) => "BLE",
            Instruction::BGT(_, _, _) => "BGT",
            Instruction::BLT(_, _, _) => "BLT",
            Instruction::JPR(_) => "JPR",
            Instruction::BREZ(_, _) => "BREZ",
            Instruction::BRNZ(_, _) => "BRNZ",
            Instruction::BREQ(_, _, _) => "BREQ",
            Instruction::BRNE(_, _, _) => "BRNE",
            Instruction::BRGE(_, _, _) => "BRGE",
            Instruction::BRLE(_, _, _) => "BRLE",
            Instruction::BRGT(_, _, _) => "BRGT",
            Instruction::BRLT(_, _, _) => "BRLT",
            Instruction::JSR(_) => "JSR",
            Instruction::RTS => "RTS",
        }
    }
}

} // verus!
