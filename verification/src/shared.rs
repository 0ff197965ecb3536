//! The instruction set: registers, pins, operands, instructions, and the
//! results that decoding and executing an instruction produce.
use vstd::prelude::*;

verus! {

/// The ten 16-bit registers. `A` is the accumulator, `X` and `Y` are index
/// registers, `R0` to `R6` are general purpose.
#[derive(Debug, Clone, Copy, PartialEq, Eq, Structural)]
pub enum Register {
    A,
    X,
    Y,
    R0,
    R1,
    R2,
    R3,
    R4,
    R5,
    R6,
}

impl Register {
    /// Number of registers.
    pub const COUNT: usize = 10;

    /// Position of the register in the register file.
    pub open spec fn spec_index(self) -> usize {
        match self {
            Register::A => 0,
            Register::X => 1,
            Register::Y => 2,
            Register::R0 => 3,
            Register::R1 => 4,
            Register::R2 => 5,
            Register::R3 => 6,
            Register::R4 => 7,
            Register::R5 => 8,
            Register::R6 => 9,
        }
    }

    /// Position of the register in the register file.
    #[verifier::when_used_as_spec(spec_index)]
    pub fn index(self) -> (i: usize)
        ensures
            i == self.spec_index(),
            i < Register::COUNT,
    {
        match self {
            Register::A => 0,
            Register::X => 1,
            Register::Y => 2,
            Register::R0 => 3,
            Register::R1 => 4,
            Register::R2 => 5,
            Register::R3 => 6,
            Register::R4 => 7,
            Register::R5 => 8,
            Register::R6 => 9,
        }
    }

    /// All of them, in the order of their positions.
    pub fn iter() -> (all: [Register; 10])
        ensures
            forall|i: int| 0 <= i < 10 ==> (#[trigger] all@[i]).spec_index() == i,
    {
        [
            Register::A,
            Register::X,
            Register::Y,
            Register::R0,
            Register::R1,
            Register::R2,
            Register::R3,
            Register::R4,
            Register::R5,
            Register::R6,
        ]
    }

    /// The register at position `repr`, if there is one.
    pub fn from_repr(repr: u8) -> (r: Option<Register>)
        ensures
            repr < Register::COUNT ==> r is Some && r->0.spec_index() == repr,
            repr >= Register::COUNT ==> r is None,
    {
        match repr {
            0 => Some(Register::A),
            1 => Some(Register::X),
            2 => Some(Register::Y),
            3 => Some(Register::R0),
            4 => Some(Register::R1),
            5 => Some(Register::R2),
            6 => Some(Register::R3),
            7 => Some(Register::R4),
            8 => Some(Register::R5),
            9 => Some(Register::R6),
            _ => None,
        }
    }
}

/// The four analog channels.
#[derive(Debug, Clone, Copy, PartialEq, Eq, Structural)]
pub enum AnalogPin {
    Analog0,
    Analog1,
    Analog2,
    Analog3,
}

impl AnalogPin {
    /// Number of analog channels.
    pub const COUNT: usize = 4;

    /// Position of the channel among the analog pins.
    pub open spec fn spec_index(self) -> usize {
        match self {
            AnalogPin::Analog0 => 0,
            AnalogPin::Analog1 => 1,
            AnalogPin::Analog2 => 2,
            AnalogPin::Analog3 => 3,
        }
    }

    /// Position of the channel among the analog pins.
    #[verifier::when_used_as_spec(spec_index)]
    pub fn index(self) -> (i: usize)
        ensures
            i == self.spec_index(),
            i < AnalogPin::COUNT,
    {
        match self {
            AnalogPin::Analog0 => 0,
            AnalogPin::Analog1 => 1,
            AnalogPin::Analog2 => 2,
            AnalogPin::Analog3 => 3,
        }
    }

    /// All of them, in the order of their positions.
    pub fn iter() -> (all: [AnalogPin; 4])
        ensures
            forall|i: int| 0 <= i < 4 ==> (#[trigger] all@[i]).spec_index() == i,
    {
        [AnalogPin::Analog0, AnalogPin::Analog1, AnalogPin::Analog2, AnalogPin::Analog3]
    }

    /// The channel with number `repr`, if there is one.
    pub fn from_repr(repr: u16) -> (r: Option<AnalogPin>)
        ensures
            repr < AnalogPin::COUNT ==> r is Some && r->0.spec_index() == repr,
            repr >= AnalogPin::COUNT ==> r is None,
    {
        match repr {
            0 => Some(AnalogPin::Analog0),
            1 => Some(AnalogPin::Analog1),
            2 => Some(AnalogPin::Analog2),
            3 => Some(AnalogPin::Analog3),
            _ => None,
        }
    }
}

/// The eight digital lines.
#[derive(Debug, Clone, Copy, PartialEq, Eq, Structural)]
pub enum DigitalPin {
    Digital0,
    Digital1,
    Digital2,
    Digital3,
    Digital4,
    Digital5,
    Digital6,
    Digital7,
}

impl DigitalPin {
    /// Number of digital lines.
    pub const COUNT: usize = 8;

    /// Position of the line among the digital pins; also its bit in a pin word.
    pub open spec fn spec_index(self) -> usize {
        match self {
            DigitalPin::Digital0 => 0,
            DigitalPin::Digital1 => 1,
            DigitalPin::Digital2 => 2,
            DigitalPin::Digital3 => 3,
            DigitalPin::Digital4 => 4,
            DigitalPin::Digital5 => 5,
            DigitalPin::Digital6 => 6,
            DigitalPin::Digital7 => 7,
        }
    }

    /// Position of the line among the digital pins; also its bit in a pin word.
    #[verifier::when_used_as_spec(spec_index)]
    pub fn index(self) -> (i: usize)
        ensures
            i == self.spec_index(),
            i < DigitalPin::COUNT,
    {
        match self {
            DigitalPin::Digital0 => 0,
            DigitalPin::Digital1 => 1,
            DigitalPin::Digital2 => 2,
            DigitalPin::Digital3 => 3,
            DigitalPin::Digital4 => 4,
            DigitalPin::Digital5 => 5,
            DigitalPin::Digital6 => 6,
            DigitalPin::Digital7 => 7,
        }
    }

    /// All of them, in the order of their positions.
    pub fn iter() -> (all: [DigitalPin; 8])
        ensures
            forall|i: int| 0 <= i < 8 ==> (#[trigger] all@[i]).spec_index() == i,
    {
        [
            DigitalPin::Digital0,
            DigitalPin::Digital1,
            DigitalPin::Digital2,
            DigitalPin::Digital3,
            DigitalPin::Digital4,
            DigitalPin::Digital5,
            DigitalPin::Digital6,
            DigitalPin::Digital7,
        ]
    }

    /// The line with number `repr`, if there is one.
    pub fn from_repr(repr: u16) -> (r: Option<DigitalPin>)
        ensures
            repr < DigitalPin::COUNT ==> r is Some && r->0.spec_index() == repr,
            repr >= DigitalPin::COUNT ==> r is None,
    {
        match repr {
            0 => Some(DigitalPin::Digital0),
            1 => Some(DigitalPin::Digital1),
            2 => Some(DigitalPin::Digital2),
            3 => Some(DigitalPin::Digital3),
            4 => Some(DigitalPin::Digital4),
            5 => Some(DigitalPin::Digital5),
            6 => Some(DigitalPin::Digital6),
            7 => Some(DigitalPin::Digital7),
            _ => None,
        }
    }
}

/// A packet on the point-to-point network: three 16-bit words.
#[derive(Debug, Clone, Copy, PartialEq, Eq, Structural)]
pub struct NetPacket {
    pub sender: u16,
    pub target: u16,
    pub data: u16,
}

impl Default for NetPacket {
    /// The all-zero packet, which a receive on an empty queue yields.
    fn default() -> (p: NetPacket)
        ensures
            p == (NetPacket { sender: 0, target: 0, data: 0 }),
    {
        NetPacket { sender: 0, target: 0, data: 0 }
    }
}

/// An operand that may be either an immediate word or a register.
#[derive(Debug, Clone, Copy, PartialEq, Eq, Structural)]
pub enum OperandValueType {
    Immediate(u16),
    Register(Register),
}

/// An instruction: the opcode together with its operands. The variant fixes
/// how many operands there are and which of them must be registers.
#[derive(Debug, Clone, Copy, PartialEq, Eq, Structural)]
pub enum Instruction {
    // Stack
    /// Push the operand onto the stack.
    PUSH(OperandValueType),
    /// Pop the top of the stack into a register.
    POP(Register),
    /// Copy a stack slot into a register without removing it.
    PEEK(Register, OperandValueType),
    /// Clear the stack.
    SCR,
    /// Read the stack depth into a register.
    RSP(Register),
    // Network
    /// Send a packet to the address in the register.
    XMIT(Register, OperandValueType),
    /// Receive a packet: sender into X, data into Y.
    RECV,
    /// Number of packets waiting to be sent, into X.
    TXBS,
    /// Number of packets waiting to be received, into X.
    RXBS,
    // Arithmetic and logic
    ADD(Register, Register),
    SUB(Register, Register),
    MUL(Register, Register),
    DIV(Register, Register),
    MOD(Register, Register),
    AND(Register, Register),
    OR(Register, Register),
    XOR(Register, Register),
    NOT(Register),
    INC(Register),
    DEC(Register),
    // Shifts
    SLL(Register, Register, OperandValueType),
    SLC(Register, Register, OperandValueType),
    SLR(Register, Register, OperandValueType),
    SRC(Register, Register, OperandValueType),
    // Rotates
    ROL(Register, Register, OperandValueType),
    ROR(Register, Register, OperandValueType),
    // Registers and memory
    /// Register copy.
    RCY(Register, Register),
    /// Register move: copy, then clear the source.
    RMV(Register, Register),
    /// Load a register with a value.
    LDR(Register, OperandValueType),
    /// Load a register from memory at address plus offset register.
    LDO(Register, OperandValueType, Register),
    /// As `LDO`, then increment the offset register.
    LDOI(Register, OperandValueType, Register),
    /// Store a value to memory.
    STM(OperandValueType, OperandValueType),
    /// Store a value to memory at address plus offset register.
    STMO(OperandValueType, OperandValueType, Register),
    /// As `STMO`, then increment the offset register.
    SMOI(OperandValueType, OperandValueType, Register),
    // Digital pins
    DPW(OperandValueType, OperandValueType),
    DPR(Register, OperandValueType),
    DPWW(OperandValueType),
    DPRW(Register),
    // Analog pins
    APW(OperandValueType, OperandValueType),
    APR(Register, OperandValueType),
    // Misc
    NOP,
    SLP(OperandValueType),
    /// Wait until a packet can be received, then receive it.
    WRX,
    HLT,
    // Absolute branches
    JMP(OperandValueType),
    BEZ(OperandValueType, Register),
    BNZ(OperandValueType, Register),
    BEQ(OperandValueType, Register, OperandValueType),
    BNE(OperandValueType, Register, OperandValueType),
    BGE(OperandValueType, Register, OperandValueType),
    BLE(OperandValueType, Register, OperandValueType),
    BGT(OperandValueType, Register, OperandValueType),
    BLT(OperandValueType, Register, OperandValueType),
    // Relative branches
    JPR(OperandValueType),
    BREZ(OperandValueType, Register),
    BRNZ(OperandValueType, Register),
    BREQ(OperandValueType, Register, OperandValueType),
    BRNE(OperandValueType, Register, OperandValueType),
    BRGE(OperandValueType, Register, OperandValueType),
    BRLE(OperandValueType, Register, OperandValueType),
    BRGT(OperandValueType, Register, OperandValueType),
    BRLT(OperandValueType, Register, OperandValueType),
    // Subroutines
    JSR(OperandValueType),
    RTS,
}

/// What the decoder says about an instruction.
#[derive(Debug, Clone, Copy, PartialEq, Eq, Structural)]
pub struct DecodeResult {
    /// How many cycles the instruction takes, the fetch cycle included.
    pub cycles: u16,
    /// Whether the body runs on every cycle while the instruction is in flight.
    pub call_every_cycle: bool,
}

/// Why the machine halted.
#[derive(Debug, Clone, Copy, PartialEq, Eq, Structural)]
pub enum HaltReason {
    Div0,
    HLTOpcode,
    InvalidPC,
    InvalidValue,
    StackOverflow,
    IndexOutOfRange,
}

/// What the engine does after an instruction body has run.
#[derive(Debug, Clone, Copy, PartialEq, Eq, Structural)]
pub enum ExecuteResult {
    /// The instruction is done: move the program counter to the next word.
    PCAdvance,
    /// The instruction is not done: keep it in flight and leave the counter.
    NoPCAdvance,
    /// The instruction is done and has set the program counter itself.
    PCModified,
    /// Halt the machine.
    Halt(HaltReason),
}

} // verus!
