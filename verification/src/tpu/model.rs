//! The mathematical model of the machine. Every contract of the machine is
//! stated over a [`TpuModel`]: sequences in place of arrays and queues, and an
//! unbounded integer in place of the program counter.
use crate::shared::{Instruction, NetPacket, OperandValueType, Register};
use vstd::prelude::*;

verus! {

/// The whole state of one machine, as plain mathematical values.
#[verifier::ext_equal]
pub struct TpuModel {
    /// The stack, bottom first.
    pub stack: Seq<u16>,
    /// Value of each analog channel.
    pub analog_pins: Seq<u16>,
    /// Level of each digital line.
    pub digital_pins: Seq<bool>,
    /// For each analog channel, whether it is an input.
    pub analog_pin_config: Seq<bool>,
    /// For each digital line, whether it is an input.
    pub digital_pin_config: Seq<bool>,
    /// The memory words.
    pub ram: Seq<u16>,
    /// The program.
    pub rom: Seq<Instruction>,
    /// This machine's address on the network.
    pub network_address: u16,
    /// Packets that have arrived, oldest first.
    pub incoming_packets: Seq<NetPacket>,
    /// Packets that wait to be sent, oldest first.
    pub outgoing_packets: Seq<NetPacket>,
    /// The register file, in the order of [`Register::index`].
    pub registers: Seq<u16>,
    /// Index into the program of the instruction that is fetched next.
    pub program_counter: int,
    /// Whether the machine has halted.
    pub halted: bool,
    /// The instruction in flight, if any.
    pub instruction: Option<Instruction>,
    /// Cycles left until the instruction in flight runs.
    pub wait_cycles: u16,
    /// Whether the instruction in flight runs on every cycle.
    pub execute_each_cycle: bool,
}

/// Capacity of the stack.
pub const STACK_SIZE: usize = 16;

/// Capacity of the queue of outgoing packets.
pub const NET_BUFFER_SIZE: usize = 8;

/// Number of memory words.
pub const RAM_SIZE: usize = 128;

/// The value of `i` reduced modulo 2^16.
pub open spec fn wrap16(i: int) -> u16 {
    (i % 0x1_0000) as u16
}

/// The packet that a receive yields when nothing has arrived.
pub open spec fn zero_packet() -> NetPacket {
    NetPacket { sender: 0, target: 0, data: 0 }
}

/// What a register operand adds to the cycles of an instruction: 1 for a
/// register, 0 for an immediate.
pub open spec fn surcharge(o: OperandValueType) -> u16 {
    if o is Register {
        1
    } else {
        0
    }
}

/// The number of register operands among `operands`.
pub open spec fn operand_cost(operands: Seq<&OperandValueType>) -> nat
    decreases operands.len(),
{
    if operands.len() == 0 {
        0
    } else {
        operand_cost(operands.drop_last()) + surcharge(*operands.last()) as nat
    }
}

/// One operand costs its surcharge.
pub proof fn lemma_operand_cost_one(a: &OperandValueType)
    ensures
        operand_cost(seq![a]) == surcharge(*a),
{
    reveal_with_fuel(operand_cost, 2);
    assert(seq![a].drop_last() =~= Seq::<&OperandValueType>::empty());
}

/// Two operands cost the sum of their surcharges.
pub proof fn lemma_operand_cost_two(a: &OperandValueType, b: &OperandValueType)
    ensures
        operand_cost(seq![a, b]) == surcharge(*a) + surcharge(*b),
{
    reveal_with_fuel(operand_cost, 3);
    assert(seq![a, b].drop_last() =~= seq![a]);
    lemma_operand_cost_one(a);
}

/// A sequence of `n` copies of `value`.
pub open spec fn filled<T>(n: nat, value: T) -> Seq<T> {
    Seq::new(n, |i: int| value)
}

/// The state of a machine that has just been made: everything is zero or
/// empty but the address, the pin directions and the program.
pub open spec fn initial(
    network_address: u16,
    analog_pin_config: Seq<bool>,
    digital_pin_config: Seq<bool>,
    rom: Seq<Instruction>,
) -> TpuModel {
    TpuModel {
        stack: Seq::empty(),
        analog_pins: filled(4, 0u16),
        digital_pins: filled(8, false),
        analog_pin_config,
        digital_pin_config,
        ram: filled(128, 0u16),
        rom,
        network_address,
        incoming_packets: Seq::empty(),
        outgoing_packets: Seq::empty(),
        registers: filled(10, 0u16),
        program_counter: 0,
        halted: false,
        instruction: None,
        wait_cycles: 0,
        execute_each_cycle: false,
    }
}

/// Bit `i` of `word`.
pub open spec fn bit_of(word: u16, i: int) -> bool {
    word & (1u16 << (i as u16)) != 0
}

/// The word whose bit `i` is `pins[i]`, for `i` below `n`; the other bits are zero.
pub open spec fn pack_pins(pins: Seq<bool>, n: int) -> u16
    decreases n,
{
    if n <= 0 {
        0
    } else {
        pack_pins(pins, n - 1) | (if pins[n - 1] {
            1u16 << ((n - 1) as u16)
        } else {
            0u16
        })
    }
}

impl TpuModel {
    /// The state is well formed: the fixed-size parts have their sizes, the
    /// stack and the outgoing queue are within their capacities, and the
    /// program counter is not negative.
    pub open spec fn wf(self) -> bool {
        &&& self.registers.len() == 10
        &&& self.analog_pins.len() == 4
        &&& self.analog_pin_config.len() == 4
        &&& self.digital_pins.len() == 8
        &&& self.digital_pin_config.len() == 8
        &&& self.ram.len() == RAM_SIZE
        &&& self.stack.len() <= STACK_SIZE
        &&& self.outgoing_packets.len() <= NET_BUFFER_SIZE
        &&& self.program_counter >= 0
    }

    /// The machine is halted or its program counter is inside the program.
    pub open spec fn pc_valid(self) -> bool {
        self.halted || 0 <= self.program_counter < self.rom.len()
    }

    /// Nothing is in flight and nothing waits: the next clock cycle fetches.
    pub open spec fn idle(self) -> bool {
        &&& self.instruction is None
        &&& self.wait_cycles <= 1
        &&& !self.execute_each_cycle
    }

    /// Value of a register.
    pub open spec fn reg(self, r: Register) -> u16 {
        self.registers[r.spec_index() as int]
    }

    /// The state with `value` in register `r`.
    pub open spec fn set_reg(self, r: Register, value: u16) -> TpuModel {
        TpuModel { registers: self.registers.update(r.spec_index() as int, value), ..self }
    }

    /// Value of an operand: the immediate itself, or what the register holds.
    pub open spec fn operand(self, o: OperandValueType) -> u16 {
        match o {
            OperandValueType::Immediate(v) => v,
            OperandValueType::Register(r) => self.reg(r),
        }
    }

    /// The state with `value` on top of the stack.
    pub open spec fn push(self, value: u16) -> TpuModel {
        TpuModel { stack: self.stack.push(value), ..self }
    }

    /// What a pop yields: the top of the stack, or 0 when the stack is empty.
    pub open spec fn top(self) -> u16 {
        if self.stack.len() > 0 {
            self.stack.last()
        } else {
            0
        }
    }

    /// The state after a pop: the stack without its top, if it had one.
    pub open spec fn pop(self) -> TpuModel {
        if self.stack.len() > 0 {
            TpuModel { stack: self.stack.drop_last(), ..self }
        } else {
            self
        }
    }

    /// The memory word at `address`; 0 outside the memory.
    pub open spec fn read_ram(self, address: int) -> u16 {
        if 0 <= address < self.ram.len() {
            self.ram[address]
        } else {
            0
        }
    }

    /// The state with `value` stored at `address`; unchanged where `address`
    /// is outside the memory.
    pub open spec fn write_ram(self, address: int, value: u16) -> TpuModel {
        if 0 <= address < self.ram.len() {
            TpuModel { ram: self.ram.update(address, value), ..self }
        } else {
            self
        }
    }

    /// The state after a write of `value` to digital line `pin`: an output
    /// takes the value, an input keeps its level.
    pub open spec fn set_digital_pin(self, pin: int, value: bool) -> TpuModel {
        if self.digital_pin_config[pin] {
            self
        } else {
            TpuModel { digital_pins: self.digital_pins.update(pin, value), ..self }
        }
    }

    /// The state after a write of `value` to analog channel `pin`: an output
    /// takes the value, an input keeps its value.
    pub open spec fn set_analog_pin(self, pin: int, value: u16) -> TpuModel {
        if self.analog_pin_config[pin] {
            self
        } else {
            TpuModel { analog_pins: self.analog_pins.update(pin, value), ..self }
        }
    }

    /// The state after a write of `word` to all digital lines: output `i`
    /// takes bit `i` of the word, each input keeps its level.
    pub open spec fn set_digital_pins(self, word: u16) -> TpuModel {
        TpuModel {
            digital_pins: Seq::new(
                self.digital_pins.len(),
                |i: int|
                    if self.digital_pin_config[i] {
                        self.digital_pins[i]
                    } else {
                        bit_of(word, i)
                    },
            ),
            ..self
        }
    }

    /// The digital lines as a word: bit `i` is line `i`.
    pub open spec fn digital_word(self) -> u16 {
        pack_pins(self.digital_pins, 8)
    }

    /// The state after sending `data` to `target`: one more outgoing packet.
    pub open spec fn send_packet(self, target: u16, data: u16) -> TpuModel {
        TpuModel {
            outgoing_packets: self.outgoing_packets.push(
                NetPacket { sender: self.network_address, target, data },
            ),
            ..self
        }
    }

    /// What a receive yields: the oldest incoming packet, or the zero packet
    /// when none has arrived.
    pub open spec fn next_packet(self) -> NetPacket {
        if self.incoming_packets.len() > 0 {
            self.incoming_packets[0]
        } else {
            zero_packet()
        }
    }

    /// The state after a receive: the incoming queue without its oldest packet.
    pub open spec fn drop_packet(self) -> TpuModel {
        if self.incoming_packets.len() > 0 {
            TpuModel { incoming_packets: self.incoming_packets.skip(1), ..self }
        } else {
            self
        }
    }

    /// The state after a reset: registers, memory, stack, queues, program
    /// counter, halt flag and the instruction in flight are cleared, and so is
    /// every output pin. Input pins, the pin directions, the program and the
    /// network address stay.
    pub open spec fn reset(self) -> TpuModel {
        TpuModel {
            stack: Seq::empty(),
            analog_pins: Seq::new(
                self.analog_pins.len(),
                |i: int|
                    if self.analog_pin_config[i] {
                        self.analog_pins[i]
                    } else {
                        0u16
                    },
            ),
            digital_pins: Seq::new(
                self.digital_pins.len(),
                |i: int|
                    if self.digital_pin_config[i] {
                        self.digital_pins[i]
                    } else {
                        false
                    },
            ),
            ram: filled(self.ram.len(), 0u16),
            incoming_packets: Seq::empty(),
            outgoing_packets: Seq::empty(),
            registers: filled(self.registers.len(), 0u16),
            program_counter: 0,
            halted: false,
            instruction: None,
            wait_cycles: 0,
            execute_each_cycle: false,
            ..self
        }
    }

    /// The state with the program counter at `target`.
    pub open spec fn set_pc(self, target: int) -> TpuModel {
        TpuModel { program_counter: target, ..self }
    }

    /// The state with `cycles` in the wait counter.
    pub open spec fn set_wait(self, cycles: u16) -> TpuModel {
        TpuModel { wait_cycles: cycles, ..self }
    }

    /// The state with nothing in flight.
    pub open spec fn clear_execution(self) -> TpuModel {
        TpuModel { instruction: None, wait_cycles: 0, execute_each_cycle: false, ..self }
    }
}

} // verus!
