//! The machine: its state, and the engine that fetches, waits and executes.
pub mod alu;
pub mod decoder;
pub mod execution;
pub mod flow;
pub mod io_matrix;
pub mod mmu;
pub mod model;
pub mod text;
pub mod theorems;

use crate::shared::{
    AnalogPin, DecodeResult, DigitalPin, ExecuteResult, HaltReason, Instruction, NetPacket,
    OperandValueType, Register,
};
use crate::tpu::decoder::spec_decode;
use crate::tpu::execution::{sleep, spec_execute, wait_receive};
use crate::tpu::model::{filled, initial, operand_cost, pack_pins, wrap16, TpuModel};
use std::collections::VecDeque;
use std::rc::Rc;
use vstd::prelude::*;

verus! {

/// The instruction in flight and how long it still waits.
#[derive(Clone, Debug)]
pub struct ExecutionState {
    /// The decoded instruction that runs when `wait_cycles` reaches zero.
    pub instruction: Option<Rc<Instruction>>,
    /// How many cycles are left until the instruction in flight runs.
    pub wait_cycles: u16,
    /// Whether the instruction in flight runs on every cycle until it is done.
    pub execute_each_cycle: bool,
}

impl Default for ExecutionState {
    /// Nothing in flight.
    fn default() -> (s: ExecutionState)
        ensures
            s.instruction is None,
            s.wait_cycles == 0,
            !s.execute_each_cycle,
    {
        ExecutionState { instruction: None, wait_cycles: 0, execute_each_cycle: false }
    }
}

/// Everything a machine holds.
#[derive(Clone)]
pub struct TpuState {
    /// The stack, bottom first.
    pub stack: Vec<u16>,
    /// Analog channels.
    pub analog_pins: [u16; 4],
    /// Digital lines.
    pub digital_pins: [bool; 8],
    /// Direction of each analog channel (true = input, false = output).
    pub analog_pin_config: [bool; 4],
    /// Direction of each digital line (true = input, false = output).
    pub digital_pin_config: [bool; 8],
    /// Memory.
    pub ram: [u16; 128],
    /// The program.
    pub rom: Vec<Rc<Instruction>>,
    /// This machine's network address.
    pub network_address: u16,
    /// Packets that have arrived.
    pub incoming_packets: VecDeque<NetPacket>,
    /// Packets that wait to be sent.
    pub outgoing_packets: VecDeque<NetPacket>,
    /// Registers, in the order of [`Register::index`].
    pub registers: [u16; 10],
    /// Index of the next instruction in the program.
    pub program_counter: usize,
    /// Whether the machine has halted.
    pub halted: bool,
    /// The instruction in flight, if any.
    pub execution_state: ExecutionState,
}

/// The instructions that a program holds, in order.
pub open spec fn rom_view(rom: Vec<Rc<Instruction>>) -> Seq<Instruction> {
    Seq::new(rom@.len(), |i: int| *rom@[i])
}

impl View for TpuState {
    type V = TpuModel;

    open spec fn view(&self) -> TpuModel {
        TpuModel {
            stack: self.stack@,
            analog_pins: self.analog_pins@,
            digital_pins: self.digital_pins@,
            analog_pin_config: self.analog_pin_config@,
            digital_pin_config: self.digital_pin_config@,
            ram: self.ram@,
            rom: rom_view(self.rom),
            network_address: self.network_address,
            incoming_packets: self.incoming_packets@,
            outgoing_packets: self.outgoing_packets@,
            registers: self.registers@,
            program_counter: self.program_counter as int,
            halted: self.halted,
            instruction: match self.execution_state.instruction {
                Some(i) => Some(*i),
                None => None,
            },
            wait_cycles: self.execution_state.wait_cycles,
            execute_each_cycle: self.execution_state.execute_each_cycle,
        }
    }
}

/// The most cycles that one call of [`TPU::step`] runs.
pub const STEP_LIMIT: u32 = 0x2_0000;

/// The state after the engine has acted on the outcome of an instruction
/// body that left state `m`.
///
/// * `PCAdvance`: nothing is in flight any more and the program counter
///   moves to the next word; past the last word the machine halts.
/// * `PCModified`: nothing is in flight any more; the counter stays where
///   the body put it.
/// * `NoPCAdvance`: the instruction stays in flight.
/// * `Halt`: the machine halts; the counter stays.
pub open spec fn settle(m: TpuModel, instruction: Instruction, outcome: ExecuteResult) -> TpuModel {
    match outcome {
        ExecuteResult::PCAdvance => TpuModel {
            program_counter: m.program_counter + 1,
            halted: m.halted || m.program_counter + 1 >= m.rom.len(),
            ..m.clear_execution()
        },
        ExecuteResult::PCModified => m.clear_execution(),
        ExecuteResult::NoPCAdvance => TpuModel { instruction: Some(instruction), ..m },
        ExecuteResult::Halt(_) => TpuModel { halted: true, ..m },
    }
}

/// The state after the body of `instruction` has run in state `m` and the
/// engine has acted on the outcome.
pub open spec fn run(m: TpuModel, instruction: Instruction, wait_cycles: u16) -> TpuModel {
    settle(
        spec_execute(m, instruction, wait_cycles).0,
        instruction,
        spec_execute(m, instruction, wait_cycles).1,
    )
}

/// The state after a fetch: an instruction of one cycle runs at once, any
/// other goes in flight with one cycle less to wait than it takes.
pub open spec fn fetch(m: TpuModel) -> TpuModel {
    let instruction = m.rom[m.program_counter];
    let decoded = spec_decode(instruction);
    if decoded.cycles == 1 {
        run(m, instruction, 1)
    } else {
        TpuModel {
            instruction: Some(instruction),
            wait_cycles: (decoded.cycles - 1) as u16,
            execute_each_cycle: decoded.call_every_cycle,
            ..m
        }
    }
}

/// The state after one clock cycle.
///
/// A halted machine stays as it is. A machine whose program counter is
/// outside the program halts. Otherwise the wait counter goes down by one,
/// unless it is 0. Then, if it is still above 0 and the instruction in
/// flight does not run on every cycle, nothing more happens; else the
/// instruction in flight runs; with nothing in flight the next instruction
/// is fetched.
pub open spec fn spec_tick(m: TpuModel) -> TpuModel {
    if m.halted {
        m
    } else if !(0 <= m.program_counter < m.rom.len()) {
        TpuModel { halted: true, ..m }
    } else {
        let waited = m.set_wait(
            if m.wait_cycles > 0 {
                (m.wait_cycles - 1) as u16
            } else {
                0
            },
        );
        if !waited.execute_each_cycle && waited.wait_cycles > 0 {
            waited
        } else {
            match waited.instruction {
                Some(instruction) => run(
                    TpuModel { instruction: None, ..waited },
                    instruction,
                    waited.wait_cycles,
                ),
                None => fetch(waited),
            }
        }
    }
}

/// Why the engine halts the machine on the outcome of an instruction body
/// that left state `m`, if it does: for the reason that the body gives, or
/// with `InvalidPC` where the next word is past the end of the program.
pub open spec fn settle_reason(m: TpuModel, outcome: ExecuteResult) -> Option<HaltReason> {
    match outcome {
        ExecuteResult::Halt(reason) => Some(reason),
        ExecuteResult::PCAdvance => if m.program_counter + 1 >= m.rom.len() {
            Some(HaltReason::InvalidPC)
        } else {
            None
        },
        _ => None,
    }
}

/// Why the machine halts when the body of `instruction` runs in state `m`,
/// if it does.
pub open spec fn run_reason(m: TpuModel, instruction: Instruction, wait_cycles: u16) -> Option<
    HaltReason,
> {
    settle_reason(
        spec_execute(m, instruction, wait_cycles).0,
        spec_execute(m, instruction, wait_cycles).1,
    )
}

/// Why the machine halts in a clock cycle that starts in state `m`, if it
/// does. A machine that is halted already does not halt again. A program
/// counter outside the program halts with `InvalidPC`.
pub open spec fn tick_reason(m: TpuModel) -> Option<HaltReason> {
    if m.halted {
        None
    } else if !(0 <= m.program_counter < m.rom.len()) {
        Some(HaltReason::InvalidPC)
    } else {
        let waited = m.set_wait(
            if m.wait_cycles > 0 {
                (m.wait_cycles - 1) as u16
            } else {
                0
            },
        );
        if !waited.execute_each_cycle && waited.wait_cycles > 0 {
            None
        } else {
            match waited.instruction {
                Some(instruction) => run_reason(
                    TpuModel { instruction: None, ..waited },
                    instruction,
                    waited.wait_cycles,
                ),
                None => if spec_decode(waited.rom[waited.program_counter]).cycles == 1 {
                    run_reason(waited, waited.rom[waited.program_counter], 1)
                } else {
                    None
                },
            }
        }
    }
}

/// Why the machine halts during a step of at most `cycles` clock cycles
/// that starts in state `m`, if it does.
pub open spec fn step_reason(m: TpuModel, program_counter: int, cycles: nat) -> Option<HaltReason>
    decreases cycles,
{
    if cycles == 0 || m.halted || m.program_counter != program_counter {
        None
    } else {
        match tick_reason(m) {
            Some(reason) => Some(reason),
            None => step_reason(spec_tick(m), program_counter, (cycles - 1) as nat),
        }
    }
}

/// The state after `cycles` clock cycles.
pub open spec fn spec_ticks(m: TpuModel, cycles: nat) -> TpuModel
    decreases cycles,
{
    if cycles == 0 {
        m
    } else {
        spec_tick(spec_ticks(m, (cycles - 1) as nat))
    }
}

/// The state after at most `cycles` clock cycles, stopping before the first
/// one at which the machine is halted or its program counter is no longer
/// `program_counter`.
pub open spec fn spec_step(m: TpuModel, program_counter: int, cycles: nat) -> TpuModel
    decreases cycles,
{
    if cycles == 0 || m.halted || m.program_counter != program_counter {
        m
    } else {
        spec_step(spec_tick(m), program_counter, (cycles - 1) as nat)
    }
}

/// A traffic processing unit.
#[derive(Clone)]
pub struct TPU {
    pub tpu_state: TpuState,
}

impl View for TPU {
    type V = TpuModel;

    open spec fn view(&self) -> TpuModel {
        self.tpu_state@
    }
}

impl TPU {
    /// Capacity of the stack.
    pub const STACK_SIZE: usize = 16;

    /// Capacity of the queue of outgoing packets.
    pub const NET_BUFFER_SIZE: usize = 8;

    /// Number of memory words.
    pub const RAM_SIZE: usize = 128;

    /// The machine's state is well formed.
    pub open spec fn wf(&self) -> bool {
        self@.wf()
    }

    /// Value of an operand: the immediate itself, or what the register holds.
    pub fn get_operand_value(&self, operand: &OperandValueType) -> (value: u16)
        ensures
            value == self@.operand(*operand),
    {
        match operand {
            OperandValueType::Register(reg) => self.read_register(*reg),
            OperandValueType::Immediate(val) => *val,
        }
    }

    /// The number of register operands among `operands`: what they add to
    /// the cycles of an instruction.
    pub fn check_operand_cost(operands: &[&OperandValueType]) -> (cost: u16)
        requires
            operands@.len() <= u16::MAX,
        ensures
            cost == operand_cost(operands@),
    {
        let mut cost: u16 = 0;
        let mut i: usize = 0;
        while i < operands.len()
            invariant
                i <= operands@.len() <= u16::MAX,
                cost == operand_cost(operands@.take(i as int)),
                cost <= i,
            decreases operands@.len() - i,
        {
            proof {
                assert(operands@.take(i + 1).drop_last() =~= operands@.take(i as int));
            }
            if let OperandValueType::Register(_) = operands[i] {
                cost += 1;
            }
            i += 1;
        }
        proof {
            assert(operands@.take(i as int) =~= operands@);
        }
        cost
    }

    /// A machine with the given address, pin directions (true = input) and
    /// program, after a reset: everything else is zero.
    pub fn new(
        network_address: u16,
        analog_pin_config: [bool; 4],
        digital_pin_config: [bool; 8],
        program: Vec<Rc<Instruction>>,
    ) -> (tpu: TPU)
        ensures
            tpu@ == initial(
                network_address,
                analog_pin_config@,
                digital_pin_config@,
                rom_view(program),
            ),
            tpu.wf(),
    {
        let mut tpu = TPU {
            tpu_state: TpuState {
                stack: Vec::new(),
                analog_pins: [0;4],
                digital_pins: [false;8],
                analog_pin_config,
                digital_pin_config,
                ram: [0;128],
                rom: program,
                network_address,
                incoming_packets: VecDeque::new(),
                outgoing_packets: VecDeque::new(),
                registers: [0;10],
                program_counter: 0,
                halted: false,
                execution_state: ExecutionState {
                    instruction: None,
                    wait_cycles: 0,
                    execute_each_cycle: false,
                },
            },
        };
        tpu.reset();
        proof {
            assert(tpu@.analog_pins =~= filled(4, 0u16));
            assert(tpu@.digital_pins =~= filled(8, false));
        }
        tpu
    }

    /// A machine in the given state.
    pub fn new_from_state(tpu_state: TpuState) -> (tpu: TPU)
        ensures
            tpu.tpu_state == tpu_state,
    {
        TPU { tpu_state }
    }

    /// Clear the machine: see [`TpuModel::reset`].
    pub fn reset(&mut self)
        ensures
            final(self)@ == old(self)@.reset(),
            final(self).wf(),
    {
        self.tpu_state.stack.clear();
        self.tpu_state.program_counter = 0;
        self.tpu_state.halted = false;
        self.tpu_state.execution_state = ExecutionState::default();
        let mut r: usize = 0;
        while r < 10
            invariant
                r <= 10,
                self@ == (TpuModel {
                    registers: Seq::new(
                        10,
                        |i: int|
                            if i < r {
                                0u16
                            } else {
                                old(self)@.registers[i]
                            },
                    ),
                    stack: Seq::empty(),
                    program_counter: 0,
                    halted: false,
                    instruction: None,
                    wait_cycles: 0,
                    execute_each_cycle: false,
                    ..old(self)@
                }),
            decreases 10 - r,
        {
            self.tpu_state.registers[r] = 0;
            r += 1;
        }
        let mut index: usize = 0;
        while index < 128
            invariant
                index <= 128,
                self@ == (TpuModel {
                    ram: Seq::new(
                        128,
                        |i: int|
                            if i < index {
                                0u16
                            } else {
                                old(self)@.ram[i]
                            },
                    ),
                    registers: filled(10, 0u16),
                    stack: Seq::empty(),
                    program_counter: 0,
                    halted: false,
                    instruction: None,
                    wait_cycles: 0,
                    execute_each_cycle: false,
                    ..old(self)@
                }),
            decreases 128 - index,
        {
            self.tpu_state.ram[index] = 0;
            index += 1;
        }
        self.tpu_state.incoming_packets.clear();
        self.tpu_state.outgoing_packets.clear();
        let mut d: u16 = 0;
        while d < 8
            invariant
                d <= 8,
                self@ == (TpuModel {
                    digital_pins: Seq::new(
                        8,
                        |i: int|
                            if i < d && !old(self)@.digital_pin_config[i] {
                                false
                            } else {
                                old(self)@.digital_pins[i]
                            },
                    ),
                    ram: filled(128, 0u16),
                    registers: filled(10, 0u16),
                    stack: Seq::empty(),
                    incoming_packets: Seq::empty(),
                    outgoing_packets: Seq::empty(),
                    program_counter: 0,
                    halted: false,
                    instruction: None,
                    wait_cycles: 0,
                    execute_each_cycle: false,
                    ..old(self)@
                }),
            decreases 8 - d,
        {
            if let Some(pin) = DigitalPin::from_repr(d) {
                self.set_digital_pin(pin, false);
            }
            d += 1;
        }
        let mut a: u16 = 0;
        while a < 4
            invariant
                a <= 4,
                self@ == (TpuModel {
                    analog_pins: Seq::new(
                        4,
                        |i: int|
                            if i < a && !old(self)@.analog_pin_config[i] {
                                0u16
                            } else {
                                old(self)@.analog_pins[i]
                            },
                    ),
                    ..old(self)@.reset()
                }),
            decreases 4 - a,
        {
            if let Some(pin) = AnalogPin::from_repr(a) {
                self.set_analog_pin(pin, 0);
            }
            a += 1;
        }
        proof {
            assert(self@.analog_pins =~= old(self)@.reset().analog_pins);
        }
    }

    /// Let the machine run for one clock cycle: see [`spec_tick`]. If the
    /// machine halts in this cycle, the result is the reason. A well-formed
    /// machine stays well formed, and afterwards the machine is halted or
    /// its program counter is inside the program.
    pub fn tick(&mut self) -> (reason: Option<HaltReason>)
        ensures
            final(self)@ == spec_tick(old(self)@),
            reason == tick_reason(old(self)@),
            reason is Some <==> !old(self)@.halted && final(self)@.halted,
            old(self)@.halted ==> final(self)@ == old(self)@,
            old(self).wf() ==> final(self).wf(),
            final(self)@.pc_valid(),
    {
        proof {
            if self.wf() {
                theorems::lemma_tick_preserves_wf(self@);
            }
            theorems::lemma_tick_program_counter(self@);
            theorems::lemma_tick_reason(self@);
        }
        if self.tpu_state.halted {
            return None;
        }
        if self.tpu_state.program_counter >= self.tpu_state.rom.len() {
            self.tpu_state.halted = true;
            return Some(HaltReason::InvalidPC);
        }
        self.decrement_wait_cycles();
        if !self.tpu_state.execution_state.execute_each_cycle
            && self.tpu_state.execution_state.wait_cycles > 0 {
            return None;
        }
        match self.tpu_state.execution_state.instruction.take() {
            Some(instruction) => {
                let wait_cycles = self.tpu_state.execution_state.wait_cycles;
                self.execute_instruction(instruction, wait_cycles)
            },
            None => self.fetch_instruction(),
        }
    }

    /// Take one cycle off the wait counter, unless it is 0.
    pub fn decrement_wait_cycles(&mut self)
        ensures
            final(self)@ == old(self)@.set_wait(
                if old(self)@.wait_cycles > 0 {
                    (old(self)@.wait_cycles - 1) as u16
                } else {
                    0
                },
            ),
    {
        self.tpu_state.execution_state.wait_cycles =
        self.tpu_state.execution_state.wait_cycles.saturating_sub(1);
    }

    /// Run clock cycles until the program counter has changed or the machine
    /// has halted, but no more than [`STEP_LIMIT`] of them: see [`spec_step`].
    /// If the machine halts during the step, the result is the reason.
    pub fn step(&mut self) -> (reason: Option<HaltReason>)
        ensures
            final(self)@ == spec_step(
                old(self)@,
                old(self)@.program_counter,
                STEP_LIMIT as nat,
            ),
            reason == step_reason(old(self)@, old(self)@.program_counter, STEP_LIMIT as nat),
            reason is Some <==> !old(self)@.halted && final(self)@.halted,
            old(self).wf() ==> final(self).wf(),
    {
        let old_pc = self.tpu_state.program_counter;
        let mut cycles: u32 = STEP_LIMIT;
        let mut reason: Option<HaltReason> = None;
        while cycles > 0 && !self.tpu_state.halted && self.tpu_state.program_counter == old_pc
            invariant
                old_pc == old(self)@.program_counter,
                spec_step(self@, old_pc as int, cycles as nat) == spec_step(
                    old(self)@,
                    old_pc as int,
                    STEP_LIMIT as nat,
                ),
                match reason {
                    Some(_) => self@.halted && reason == step_reason(
                        old(self)@,
                        old_pc as int,
                        STEP_LIMIT as nat,
                    ),
                    None => step_reason(self@, old_pc as int, cycles as nat) == step_reason(
                        old(self)@,
                        old_pc as int,
                        STEP_LIMIT as nat,
                    ),
                },
                reason is Some <==> !old(self)@.halted && self@.halted,
                old(self).wf() ==> self.wf(),
            decreases cycles,
        {
            reason = self.tick();
            cycles -= 1;
        }
        reason
    }

    /// Fetch the instruction at the program counter, which must be inside
    /// the program, while nothing is in flight: see [`fetch`]. If the
    /// machine halts, the result is the reason.
    pub fn fetch_instruction(&mut self) -> (reason: Option<HaltReason>)
        requires
            old(self)@.program_counter < old(self)@.rom.len(),
        ensures
            final(self)@ == fetch(old(self)@),
            reason == if spec_decode(old(self)@.rom[old(self)@.program_counter]).cycles == 1 {
                run_reason(old(self)@, old(self)@.rom[old(self)@.program_counter], 1)
            } else {
                None
            },
    {
        let instruction = Rc::new(*self.tpu_state.rom[self.tpu_state.program_counter]);
        let result = decoder::decode(&instruction);
        if result.cycles == 1 {
            self.execute_instruction(instruction, 1)
        } else {
            self.tpu_state.execution_state.wait_cycles = result.cycles - 1;
            self.tpu_state.execution_state.execute_each_cycle = result.call_every_cycle;
            self.tpu_state.execution_state.instruction = Some(instruction);
            None
        }
    }

    /// Run the body of an instruction and act on its outcome: see [`run`].
    /// If the machine halts, the result is the reason. The program counter
    /// must be inside the program.
    pub fn execute_instruction(
        &mut self,
        instruction: Rc<Instruction>,
        wait_cycles: u16,
    ) -> (reason: Option<HaltReason>)
        requires
            old(self)@.program_counter < old(self)@.rom.len(),
        ensures
            final(self)@ == run(old(self)@, *instruction, wait_cycles),
            reason == run_reason(old(self)@, *instruction, wait_cycles),
    {
        proof {
            theorems::lemma_execute_program_counter(self@, *instruction, wait_cycles);
            theorems::lemma_execute_keeps_configuration(self@, *instruction, wait_cycles);
        }
        let length = self.tpu_state.rom.len();
        let result = execution::execute(self, &instruction, wait_cycles);
        match result {
            ExecuteResult::PCAdvance => {
                self.tpu_state.execution_state.wait_cycles = 0;
                self.tpu_state.execution_state.instruction = None;
                self.tpu_state.execution_state.execute_each_cycle = false;
                let past_end = self.tpu_state.program_counter + 1 >= length;
                if past_end {
                    self.tpu_state.halted = true;
                }
                self.tpu_state.program_counter += 1;
                if past_end {
                    Some(HaltReason::InvalidPC)
                } else {
                    None
                }
            },
            ExecuteResult::PCModified => {
                self.tpu_state.execution_state.wait_cycles = 0;
                self.tpu_state.execution_state.instruction = None;
                self.tpu_state.execution_state.execute_each_cycle = false;
                None
            },
            ExecuteResult::NoPCAdvance => {
                self.tpu_state.execution_state.instruction = Some(instruction);
                None
            },
            ExecuteResult::Halt(reason) => {
                self.tpu_state.halted = true;
                Some(reason)
            },
        }
    }

    /// Whether an instruction in flight still waits.
    pub fn busy(&self) -> (b: bool)
        ensures
            b == (self@.wait_cycles > 0),
    {
        self.tpu_state.execution_state.wait_cycles > 0
    }

    /// Whether the machine has halted.
    pub fn halted(&self) -> (b: bool)
        ensures
            b == self@.halted,
    {
        self.tpu_state.halted
    }

    /// The machine's state, to look at.
    pub fn state(&self) -> (s: &TpuState)
        ensures
            *s == self.tpu_state,
    {
        &self.tpu_state
    }

    /// Value of a register.
    pub fn read_register(&self, register: Register) -> (value: u16)
        ensures
            value == self@.reg(register),
    {
        self.tpu_state.registers[register.index()]
    }

    /// Write a value to a register.
    pub fn write_register(&mut self, register: Register, value: u16)
        ensures
            final(self)@ == old(self)@.set_reg(register, value),
    {
        self.tpu_state.registers[register.index()] = value;
    }

    /// Push a value onto the stack, which must have room for it.
    pub fn push(&mut self, value: u16)
        requires
            old(self)@.stack.len() < TPU::STACK_SIZE,
        ensures
            final(self)@ == old(self)@.push(value),
    {
        self.tpu_state.stack.push(value);
    }

    /// Pop the top of the stack; an empty stack yields 0 and stays empty.
    pub fn pop(&mut self) -> (value: u16)
        ensures
            value == old(self)@.top(),
            final(self)@ == old(self)@.pop(),
    {
        match self.tpu_state.stack.pop() {
            Some(value) => value,
            None => 0,
        }
    }

    /// Write an analog channel. An input channel ignores the write.
    pub fn set_analog_pin(&mut self, pin: AnalogPin, value: u16)
        ensures
            final(self)@ == old(self)@.set_analog_pin(pin.spec_index() as int, value),
    {
        if self.tpu_state.analog_pin_config[pin.index()] {
            return ;
        }
        self.tpu_state.analog_pins[pin.index()] = value;
    }

    /// Value of an analog channel.
    pub fn get_analog_pin(&self, pin: AnalogPin) -> (value: u16)
        ensures
            value == self@.analog_pins[pin.spec_index() as int],
    {
        self.tpu_state.analog_pins[pin.index()]
    }

    /// Write a digital line. An input line ignores the write.
    pub fn set_digital_pin(&mut self, pin: DigitalPin, value: bool)
        ensures
            final(self)@ == old(self)@.set_digital_pin(pin.spec_index() as int, value),
    {
        if self.tpu_state.digital_pin_config[pin.index()] {
            return ;
        }
        self.tpu_state.digital_pins[pin.index()] = value;
    }

    /// Write all digital lines at once: line `i` takes bit `i` of `word`.
    /// Input lines ignore the write.
    pub fn set_digital_pins(&mut self, word: u16)
        ensures
            final(self)@ == old(self)@.set_digital_pins(word),
    {
        let mut i: u16 = 0;
        while i < 8
            invariant
                i <= 8,
                self@ == (TpuModel {
                    digital_pins: Seq::new(
                        8,
                        |j: int|
                            if j < i {
                                old(self)@.set_digital_pins(word).digital_pins[j]
                            } else {
                                old(self)@.digital_pins[j]
                            },
                    ),
                    ..old(self)@
                }),
            decreases 8 - i,
        {
            let bit = word & (1u16 << i);
            if let Some(pin) = DigitalPin::from_repr(i) {
                self.set_digital_pin(pin, bit != 0);
            }
            i += 1;
        }
        proof {
            assert(self@.digital_pins =~= old(self)@.set_digital_pins(word).digital_pins);
        }
    }

    /// All digital lines as one word: bit `i` is line `i`.
    pub fn get_digital_pins(&self) -> (word: u16)
        ensures
            word == self@.digital_word(),
    {
        let mut word: u16 = 0;
        let mut i: u16 = 0;
        while i < 8
            invariant
                i <= 8,
                word == pack_pins(self@.digital_pins, i as int),
            decreases 8 - i,
        {
            if let Some(pin) = DigitalPin::from_repr(i) {
                if self.get_digital_pin(pin) {
                    word = word | (1u16 << i);
                } else {
                    proof {
                        assert(word | 0u16 == word) by (bit_vector);
                    }
                }
            }
            i += 1;
        }
        word
    }

    /// Level of a digital line.
    pub fn get_digital_pin(&self, pin: DigitalPin) -> (value: bool)
        ensures
            value == self@.digital_pins[pin.spec_index() as int],
    {
        self.tpu_state.digital_pins[pin.index()]
    }

    /// The memory word at `address`; 0 if the address is outside the memory.
    pub fn read_ram(&self, address: usize) -> (value: u16)
        ensures
            value == self@.read_ram(address as int),
    {
        if address < TPU::RAM_SIZE {
            self.tpu_state.ram[address]
        } else {
            0
        }
    }

    /// Number of memory words.
    pub fn ram_size(&self) -> (size: usize)
        ensures
            size == self@.ram.len(),
            size == TPU::RAM_SIZE,
    {
        TPU::RAM_SIZE
    }

    /// Store `value` at `address`; nothing happens if the address is outside
    /// the memory.
    pub fn write_ram(&mut self, address: usize, value: u16)
        ensures
            final(self)@ == old(self)@.write_ram(address as int, value),
    {
        if address < TPU::RAM_SIZE {
            self.tpu_state.ram[address] = value;
        }
    }

    /// The program.
    pub fn read_rom(&self) -> (rom: &Vec<Rc<Instruction>>)
        ensures
            *rom == self.tpu_state.rom,
    {
        &self.tpu_state.rom
    }

    /// Queue a packet for `address`. The queue must have room for it.
    pub fn send_packet(&mut self, address: u16, data: u16)
        requires
            old(self)@.outgoing_packets.len() < TPU::NET_BUFFER_SIZE,
        ensures
            final(self)@ == old(self)@.send_packet(address, data),
    {
        let sender = self.tpu_state.network_address;
        self.tpu_state.outgoing_packets.push_back(NetPacket { sender, target: address, data });
    }

    /// Take the oldest incoming packet; the zero packet if none has arrived.
    pub fn receive_packet(&mut self) -> (packet: NetPacket)
        ensures
            packet == old(self)@.next_packet(),
            final(self)@ == old(self)@.drop_packet(),
    {
        match self.tpu_state.incoming_packets.pop_front() {
            Some(packet) => packet,
            None => NetPacket::default(),
        }
    }

    /// Hand a packet that has arrived to the machine: it joins the incoming
    /// queue at its end.
    pub fn deliver_packet(&mut self, packet: NetPacket)
        ensures
            final(self)@ == (TpuModel {
                incoming_packets: old(self)@.incoming_packets.push(packet),
                ..old(self)@
            }),
    {
        self.tpu_state.incoming_packets.push_back(packet);
    }

    /// Take the oldest packet that waits to be sent, if there is one.
    pub fn collect_packet(&mut self) -> (packet: Option<NetPacket>)
        ensures
            old(self)@.outgoing_packets.len() == 0 ==> packet is None && final(self)@ == old(self)@,
            old(self)@.outgoing_packets.len() > 0 ==> packet == Some(
                old(self)@.outgoing_packets[0],
            ) && final(self)@ == (TpuModel {
                outgoing_packets: old(self)@.outgoing_packets.skip(1),
                ..old(self)@
            }),
    {
        self.tpu_state.outgoing_packets.pop_front()
    }

    /// The stack depth, reduced modulo 2^16.
    pub fn stack_pointer(&self) -> (depth: u16)
        ensures
            depth == wrap16(self@.stack.len() as int),
    {
        let depth = self.tpu_state.stack.len();
        #[verifier::truncate]
        let word = depth as u16;
        proof {
            lemma_truncate_u16(depth);
        }
        word
    }

    /// `NOP`: nothing.
    pub fn op_nop() -> (result: ExecuteResult)
        ensures
            result == ExecuteResult::PCAdvance,
    {
        ExecuteResult::PCAdvance
    }

    /// `SLP`: sleep for the operand's value in cycles, and one more if the
    /// operand is a register. The body runs when the instruction is fetched,
    /// where it starts the sleep, and again when the wait counter has run
    /// down, where it is done: see [`sleep`].
    pub fn op_slp(&mut self, value: &OperandValueType, wait_cycles: u16) -> (result: ExecuteResult)
        ensures
            (final(self)@, result) == sleep(old(self)@, *value, wait_cycles),
    {
        if wait_cycles == 0 {
            return ExecuteResult::PCAdvance;
        }
        let operands = [value];
        proof {
            assert(operands@ =~= seq![value]);
            crate::tpu::model::lemma_operand_cost_one(value);
        }
        let delay = TPU::check_operand_cost(&operands).saturating_add(
            self.get_operand_value(value),
        );
        if delay == 0 {
            return ExecuteResult::PCAdvance;
        }
        self.tpu_state.execution_state.wait_cycles = delay;
        ExecuteResult::NoPCAdvance
    }

    /// `NOP` takes 1 cycle.
    pub fn decode_op_nop() -> (result: DecodeResult)
        ensures
            result == (DecodeResult { cycles: 1, call_every_cycle: false }),
    {
        DecodeResult { cycles: 1, call_every_cycle: false }
    }

    /// `SLP` takes 1 cycle to start; its body adds the sleep.
    pub fn decode_op_slp() -> (result: DecodeResult)
        ensures
            result == (DecodeResult { cycles: 1, call_every_cycle: false }),
    {
        DecodeResult { cycles: 1, call_every_cycle: false }
    }

    /// `WRX`: wait for a packet, then receive it as `RECV` does. With
    /// nothing to receive the instruction stays in flight and runs again on
    /// the next cycle.
    pub fn op_wrx(tpu: &mut TPU) -> (result: ExecuteResult)
        ensures
            (final(tpu)@, result) == wait_receive(old(tpu)@),
    {
        if tpu.tpu_state.incoming_packets.len() == 0 {
            tpu.tpu_state.execution_state.wait_cycles = 1;
            ExecuteResult::NoPCAdvance
        } else {
            tpu.tpu_state.execution_state.wait_cycles = 4;
            io_matrix::op_recv(tpu);
            ExecuteResult::PCAdvance
        }
    }

    /// `WRX` has no fixed cost: it is decoded with the largest count and runs
    /// on every cycle until a packet has arrived.
    pub fn decode_op_wrx() -> (result: DecodeResult)
        ensures
            result == (DecodeResult { cycles: 65535, call_every_cycle: true }),
    {
        DecodeResult { cycles: 65535, call_every_cycle: true }
    }

    /// `HLT`: halt the machine.
    pub fn op_hlt() -> (result: ExecuteResult)
        ensures
            result == ExecuteResult::Halt(HaltReason::HLTOpcode),
    {
        ExecuteResult::Halt(HaltReason::HLTOpcode)
    }

    /// `HLT` takes 1 cycle.
    pub fn decode_op_hlt() -> (result: DecodeResult)
        ensures
            result == (DecodeResult { cycles: 1, call_every_cycle: false }),
    {
        DecodeResult { cycles: 1, call_every_cycle: false }
    }
}

/// A machine with network address 1, all pins configured as outputs, and
/// the given program.
pub fn create_basic_tpu_config(program: Vec<Rc<Instruction>>) -> (tpu: TPU)
    ensures
        tpu@ == initial(1, filled(4, false), filled(8, false), rom_view(program)),
        tpu.wf(),
{
    TPU::new(0x1, [false;4], [false;8], program)
}

/// Casting a `usize` to `u16` reduces it modulo 2^16.
pub proof fn lemma_truncate_u16(n: usize)
    ensures
        n as u16 == wrap16(n as int),
{
    assert(n as u16 == n % 0x1_0000) by (bit_vector);
}

} // verus!
