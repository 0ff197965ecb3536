//! What holds of every machine: facts about the instruction set and the
//! engine, proved from their definitions.
use crate::shared::{
    AnalogPin, DigitalPin, ExecuteResult, HaltReason, Instruction, OperandValueType, Register,
};
use crate::tpu::alu::{rotate_left, rotate_right};
use crate::tpu::flow::{branch_target, relative};
use crate::tpu::execution::spec_execute;
use crate::tpu::model::{bit_of, initial, pack_pins, wrap16, TpuModel};
use crate::tpu::decoder::spec_decode;
use crate::tpu::execution::sleep_cycles;
use crate::tpu::{run, spec_step, spec_tick, spec_ticks, step_reason, tick_reason, TPU};
use vstd::prelude::*;

verus! {

/// No instruction takes a well-formed machine out of well-formedness. In
/// particular the stack never grows beyond its 16 slots, nor the outgoing
/// queue beyond its 8.
#[verifier::rlimit(50)]
pub proof fn lemma_execute_preserves_wf(m: TpuModel, instruction: Instruction, wait_cycles: u16)
    requires
        m.wf(),
    ensures
        spec_execute(m, instruction, wait_cycles).0.wf(),
{
    reveal(spec_execute);
    match instruction {
        Instruction::PUSH(_)
        | Instruction::POP(_)
        | Instruction::PEEK(_, _)
        | Instruction::SCR
        | Instruction::RSP(_) => {},
        Instruction::XMIT(_, _)
        | Instruction::RECV
        | Instruction::TXBS
        | Instruction::RXBS
        | Instruction::WRX => {},
        Instruction::ADD(_, _)
        | Instruction::SUB(_, _)
        | Instruction::MUL(_, _)
        | Instruction::DIV(_, _)
        | Instruction::MOD(_, _)
        | Instruction::AND(_, _)
        | Instruction::OR(_, _)
        | Instruction::XOR(_, _)
        | Instruction::NOT(_)
        | Instruction::INC(_)
        | Instruction::DEC(_) => {},
        Instruction::SLL(_, _, _)
        | Instruction::SLC(_, _, _)
        | Instruction::SLR(_, _, _)
        | Instruction::SRC(_, _, _)
        | Instruction::ROL(_, _, _)
        | Instruction::ROR(_, _, _) => {},
        Instruction::RCY(_, _)
        | Instruction::RMV(_, _)
        | Instruction::LDR(_, _)
        | Instruction::LDO(_, _, _)
        | Instruction::LDOI(_, _, _)
        | Instruction::STM(_, _)
        | Instruction::STMO(_, _, _)
        | Instruction::SMOI(_, _, _) => {},
        Instruction::DPW(_, _)
        | Instruction::DPR(_, _)
        | Instruction::DPWW(_)
        | Instruction::DPRW(_)
        | Instruction::APW(_, _)
        | Instruction::APR(_, _) => {},
        Instruction::NOP | Instruction::SLP(_) | Instruction::HLT => {},
        Instruction::JMP(_)
        | Instruction::BEZ(_, _)
        | Instruction::BNZ(_, _)
        | Instruction::BEQ(_, _, _)
        | Instruction::BNE(_, _, _)
        | Instruction::BGE(_, _, _)
        | Instruction::BLE(_, _, _)
        | Instruction::BGT(_, _, _)
        | Instruction::BLT(_, _, _) => {},
        Instruction::JPR(_)
        | Instruction::BREZ(_, _)
        | Instruction::BRNZ(_, _)
        | Instruction::BREQ(_, _, _)
        | Instruction::BRNE(_, _, _)
        | Instruction::BRGE(_, _, _)
        | Instruction::BRLE(_, _, _)
        | Instruction::BRGT(_, _, _)
        | Instruction::BRLT(_, _, _) => {},
        Instruction::JSR(_) | Instruction::RTS => {},
    }
}

/// No instruction changes the program, the pin directions or the network
/// address.
#[verifier::rlimit(50)]
pub proof fn lemma_execute_keeps_configuration(
    m: TpuModel,
    instruction: Instruction,
    wait_cycles: u16,
)
    ensures
        spec_execute(m, instruction, wait_cycles).0.rom == m.rom,
        spec_execute(m, instruction, wait_cycles).0.analog_pin_config == m.analog_pin_config,
        spec_execute(m, instruction, wait_cycles).0.digital_pin_config == m.digital_pin_config,
        spec_execute(m, instruction, wait_cycles).0.network_address == m.network_address,
{
    reveal(spec_execute);
    match instruction {
        Instruction::PUSH(_)
        | Instruction::POP(_)
        | Instruction::PEEK(_, _)
        | Instruction::SCR
        | Instruction::RSP(_) => {},
        Instruction::XMIT(_, _)
        | Instruction::RECV
        | Instruction::TXBS
        | Instruction::RXBS
        | Instruction::WRX => {},
        Instruction::ADD(_, _)
        | Instruction::SUB(_, _)
        | Instruction::MUL(_, _)
        | Instruction::DIV(_, _)
        | Instruction::MOD(_, _)
        | Instruction::AND(_, _)
        | Instruction::OR(_, _)
        | Instruction::XOR(_, _)
        | Instruction::NOT(_)
        | Instruction::INC(_)
        | Instruction::DEC(_) => {},
        Instruction::SLL(_, _, _)
        | Instruction::SLC(_, _, _)
        | Instruction::SLR(_, _, _)
        | Instruction::SRC(_, _, _)
        | Instruction::ROL(_, _, _)
        | Instruction::ROR(_, _, _) => {},
        Instruction::RCY(_, _)
        | Instruction::RMV(_, _)
        | Instruction::LDR(_, _)
        | Instruction::LDO(_, _, _)
        | Instruction::LDOI(_, _, _)
        | Instruction::STM(_, _)
        | Instruction::STMO(_, _, _)
        | Instruction::SMOI(_, _, _) => {},
        Instruction::DPW(_, _)
        | Instruction::DPR(_, _)
        | Instruction::DPWW(_)
        | Instruction::DPRW(_)
        | Instruction::APW(_, _)
        | Instruction::APR(_, _) => {},
        Instruction::NOP | Instruction::SLP(_) | Instruction::HLT => {},
        Instruction::JMP(_)
        | Instruction::BEZ(_, _)
        | Instruction::BNZ(_, _)
        | Instruction::BEQ(_, _, _)
        | Instruction::BNE(_, _, _)
        | Instruction::BGE(_, _, _)
        | Instruction::BLE(_, _, _)
        | Instruction::BGT(_, _, _)
        | Instruction::BLT(_, _, _) => {},
        Instruction::JPR(_)
        | Instruction::BREZ(_, _)
        | Instruction::BRNZ(_, _)
        | Instruction::BREQ(_, _, _)
        | Instruction::BRNE(_, _, _)
        | Instruction::BRGE(_, _, _)
        | Instruction::BRLE(_, _, _)
        | Instruction::BRGT(_, _, _)
        | Instruction::BRLT(_, _, _) => {},
        Instruction::JSR(_) | Instruction::RTS => {},
    }
}

/// The program counter moves in the body of an instruction only where the
/// outcome says so, and then it lands inside the program. No body halts the
/// machine by itself or touches the instruction in flight.
#[verifier::rlimit(50)]
pub proof fn lemma_execute_program_counter(m: TpuModel, instruction: Instruction, wait_cycles: u16)
    ensures
        spec_execute(m, instruction, wait_cycles).1 != ExecuteResult::PCModified ==> spec_execute(
            m,
            instruction,
            wait_cycles,
        ).0.program_counter == m.program_counter,
        spec_execute(m, instruction, wait_cycles).1 == ExecuteResult::PCModified ==> 0
            <= spec_execute(m, instruction, wait_cycles).0.program_counter < m.rom.len(),
        spec_execute(m, instruction, wait_cycles).0.halted == m.halted,
        spec_execute(m, instruction, wait_cycles).0.instruction == m.instruction,
        spec_execute(m, instruction, wait_cycles).0.execute_each_cycle == m.execute_each_cycle,
{
    reveal(spec_execute);
    match instruction {
        Instruction::PUSH(_)
        | Instruction::POP(_)
        | Instruction::PEEK(_, _)
        | Instruction::SCR
        | Instruction::RSP(_) => {},
        Instruction::XMIT(_, _)
        | Instruction::RECV
        | Instruction::TXBS
        | Instruction::RXBS
        | Instruction::WRX => {},
        Instruction::ADD(_, _)
        | Instruction::SUB(_, _)
        | Instruction::MUL(_, _)
        | Instruction::DIV(_, _)
        | Instruction::MOD(_, _)
        | Instruction::AND(_, _)
        | Instruction::OR(_, _)
        | Instruction::XOR(_, _)
        | Instruction::NOT(_)
        | Instruction::INC(_)
        | Instruction::DEC(_) => {},
        Instruction::SLL(_, _, _)
        | Instruction::SLC(_, _, _)
        | Instruction::SLR(_, _, _)
        | Instruction::SRC(_, _, _)
        | Instruction::ROL(_, _, _)
        | Instruction::ROR(_, _, _) => {},
        Instruction::RCY(_, _)
        | Instruction::RMV(_, _)
        | Instruction::LDR(_, _)
        | Instruction::LDO(_, _, _)
        | Instruction::LDOI(_, _, _)
        | Instruction::STM(_, _)
        | Instruction::STMO(_, _, _)
        | Instruction::SMOI(_, _, _) => {},
        Instruction::DPW(_, _)
        | Instruction::DPR(_, _)
        | Instruction::DPWW(_)
        | Instruction::DPRW(_)
        | Instruction::APW(_, _)
        | Instruction::APR(_, _) => {},
        Instruction::NOP | Instruction::SLP(_) | Instruction::HLT => {},
        Instruction::JMP(_)
        | Instruction::BEZ(_, _)
        | Instruction::BNZ(_, _)
        | Instruction::BEQ(_, _, _)
        | Instruction::BNE(_, _, _)
        | Instruction::BGE(_, _, _)
        | Instruction::BLE(_, _, _)
        | Instruction::BGT(_, _, _)
        | Instruction::BLT(_, _, _) => {},
        Instruction::JPR(_)
        | Instruction::BREZ(_, _)
        | Instruction::BRNZ(_, _)
        | Instruction::BREQ(_, _, _)
        | Instruction::BRNE(_, _, _)
        | Instruction::BRGE(_, _, _)
        | Instruction::BRLE(_, _, _)
        | Instruction::BRGT(_, _, _)
        | Instruction::BRLT(_, _, _) => {},
        Instruction::JSR(_) | Instruction::RTS => {},
    }
}

/// A clock cycle keeps a well-formed machine well formed.
#[verifier::rlimit(50)]
pub proof fn lemma_tick_preserves_wf(m: TpuModel)
    requires
        m.wf(),
    ensures
        spec_tick(m).wf(),
{
    if !m.halted && 0 <= m.program_counter < m.rom.len() {
        let waited = m.set_wait(
            if m.wait_cycles > 0 {
                (m.wait_cycles - 1) as u16
            } else {
                0
            },
        );
        let instruction = m.rom[m.program_counter];
        lemma_execute_preserves_wf(waited, instruction, 1);
        lemma_execute_program_counter(waited, instruction, 1);
        if m.instruction is Some {
            let cleared = TpuModel { instruction: None, ..waited };
            lemma_execute_preserves_wf(cleared, m.instruction->0, waited.wait_cycles);
            lemma_execute_program_counter(cleared, m.instruction->0, waited.wait_cycles);
        }
    }
}

/// After a clock cycle the machine is halted or its program counter is
/// inside the program, whatever the state before.
#[verifier::rlimit(50)]
pub proof fn lemma_tick_program_counter(m: TpuModel)
    ensures
        spec_tick(m).pc_valid(),
{
    if !m.halted && 0 <= m.program_counter < m.rom.len() {
        let waited = m.set_wait(
            if m.wait_cycles > 0 {
                (m.wait_cycles - 1) as u16
            } else {
                0
            },
        );
        let instruction = m.rom[m.program_counter];
        lemma_execute_program_counter(waited, instruction, 1);
        lemma_execute_keeps_configuration(waited, instruction, 1);
        if m.instruction is Some {
            let cleared = TpuModel { instruction: None, ..waited };
            lemma_execute_program_counter(cleared, m.instruction->0, waited.wait_cycles);
            lemma_execute_keeps_configuration(cleared, m.instruction->0, waited.wait_cycles);
        }
    }
}

/// A clock cycle gives a reason exactly when it halts a machine that was
/// not halted.
#[verifier::rlimit(50)]
pub proof fn lemma_tick_reason(m: TpuModel)
    ensures
        tick_reason(m) is Some <==> !m.halted && spec_tick(m).halted,
{
    if !m.halted && 0 <= m.program_counter < m.rom.len() {
        let waited = m.set_wait(
            if m.wait_cycles > 0 {
                (m.wait_cycles - 1) as u16
            } else {
                0
            },
        );
        let instruction = m.rom[m.program_counter];
        lemma_execute_program_counter(waited, instruction, 1);
        lemma_execute_keeps_configuration(waited, instruction, 1);
        if m.instruction is Some {
            let cleared = TpuModel { instruction: None, ..waited };
            lemma_execute_program_counter(cleared, m.instruction->0, waited.wait_cycles);
            lemma_execute_keeps_configuration(cleared, m.instruction->0, waited.wait_cycles);
        }
    }
}

/// A step gives a reason exactly when it halts a machine that was not
/// halted.
pub proof fn lemma_step_reason(m: TpuModel, program_counter: int, cycles: nat)
    ensures
        step_reason(m, program_counter, cycles) is Some <==> !m.halted && spec_step(
            m,
            program_counter,
            cycles,
        ).halted,
    decreases cycles,
{
    if !(cycles == 0 || m.halted || m.program_counter != program_counter) {
        lemma_tick_reason(m);
        lemma_step_reason(spec_tick(m), program_counter, (cycles - 1) as nat);
        if spec_tick(m).halted {
            assert(spec_step(spec_tick(m), program_counter, (cycles - 1) as nat) == spec_tick(m));
        }
    }
}

/// `ADD`, `SUB` and `MUL` write the sum, the difference and the product of
/// the two registers into A, each reduced modulo 2^16, and are done.
pub proof fn lemma_add_sub_mul(m: TpuModel, left: Register, right: Register, wait_cycles: u16)
    requires
        m.wf(),
    ensures
        spec_execute(m, Instruction::ADD(left, right), wait_cycles).1 == ExecuteResult::PCAdvance,
        spec_execute(m, Instruction::ADD(left, right), wait_cycles).0.reg(Register::A) == (m.reg(
            left,
        ) + m.reg(right)) % 0x1_0000,
        spec_execute(m, Instruction::SUB(left, right), wait_cycles).1 == ExecuteResult::PCAdvance,
        spec_execute(m, Instruction::SUB(left, right), wait_cycles).0.reg(Register::A) == (m.reg(
            left,
        ) - m.reg(right)) % 0x1_0000,
        spec_execute(m, Instruction::MUL(left, right), wait_cycles).1 == ExecuteResult::PCAdvance,
        spec_execute(m, Instruction::MUL(left, right), wait_cycles).0.reg(Register::A) == (m.reg(
            left,
        ) * m.reg(right)) % 0x1_0000,
{
    reveal(spec_execute);
}

/// `DIV` by a register that is not zero writes the quotient into A and is
/// done. `DIV` by zero halts the machine with `Div0` and changes nothing, so
/// A keeps its value.
pub proof fn lemma_div(m: TpuModel, left: Register, right: Register, wait_cycles: u16)
    requires
        m.wf(),
    ensures
        m.reg(right) != 0 ==> spec_execute(m, Instruction::DIV(left, right), wait_cycles).1
            == ExecuteResult::PCAdvance && spec_execute(
            m,
            Instruction::DIV(left, right),
            wait_cycles,
        ).0.reg(Register::A) == m.reg(left) as int / m.reg(right) as int,
        m.reg(right) == 0 ==> spec_execute(m, Instruction::DIV(left, right), wait_cycles) == (
            m,
            ExecuteResult::Halt(HaltReason::Div0),
        ),
{
    reveal(spec_execute);
}

/// A rotation to the left by `n` is a rotation to the right by `16 - n`
/// (taken modulo 2^16), unless `n` is a multiple of 16; then it changes
/// nothing.
pub proof fn lemma_rotate_left_is_rotate_right(value: u16, n: u16)
    ensures
        n % 16 != 0 ==> rotate_left(value, n) == rotate_right(value, wrap16(16 - n)),
        n % 16 == 0 ==> rotate_left(value, n) == value,
        rotate_left(value, 0) == value,
{
    if n % 16 != 0 {
        let r = n % 16;
        let back = wrap16(16 - n);
        assert(back % 16 == 16 - r);
        let s = (16 - r) as u16;
        assert((16 - s) as u16 == r);
        assert((value << r) | (value >> s) == (value >> s) | (value << r)) by (bit_vector);
    }
}

/// `ROL` by an immediate `n` that is not a multiple of 16 does what `ROR`
/// by `16 - n` (taken modulo 2^16) does.
pub proof fn lemma_rol_is_ror(
    m: TpuModel,
    target: Register,
    source: Register,
    n: u16,
    wait_cycles: u16,
)
    requires
        n % 16 != 0,
    ensures
        spec_execute(
            m,
            Instruction::ROL(target, source, OperandValueType::Immediate(n)),
            wait_cycles,
        ) == spec_execute(
            m,
            Instruction::ROR(target, source, OperandValueType::Immediate(wrap16(16 - n))),
            wait_cycles,
        ),
{
    reveal(spec_execute);
    lemma_rotate_left_is_rotate_right(m.reg(source), n);
}

/// `PUSH` on a full stack halts the machine with `StackOverflow` and changes
/// nothing, so the depth stays; on a stack with room it adds one slot.
pub proof fn lemma_push(m: TpuModel, source: OperandValueType, wait_cycles: u16)
    requires
        m.wf(),
    ensures
        m.stack.len() == TPU::STACK_SIZE ==> spec_execute(m, Instruction::PUSH(source), wait_cycles)
            == (m, ExecuteResult::Halt(HaltReason::StackOverflow)),
        m.stack.len() < TPU::STACK_SIZE ==> spec_execute(
            m,
            Instruction::PUSH(source),
            wait_cycles,
        ).1 == ExecuteResult::PCAdvance && spec_execute(
            m,
            Instruction::PUSH(source),
            wait_cycles,
        ).0.stack == m.stack.push(m.operand(source)),
        spec_execute(m, Instruction::PUSH(source), wait_cycles).0.stack.len() <= TPU::STACK_SIZE,
{
    reveal(spec_execute);
}

/// Where a jump, branch or subroutine instruction sends the program counter
/// in state `m`: the target if a branch is taken, the next word if it is
/// not, the top of the stack for `RTS`. `None` for any other instruction.
pub open spec fn flow_target(m: TpuModel, instruction: Instruction) -> Option<int> {
    match instruction {
        Instruction::JMP(target) => Some(m.operand(target) as int),
        Instruction::BEZ(target, source) => Some(
            branch_target(m, m.reg(source) == 0, m.operand(target) as int),
        ),
        Instruction::BNZ(target, source) => Some(
            branch_target(m, m.reg(source) != 0, m.operand(target) as int),
        ),
        Instruction::BEQ(target, source, value) => Some(
            branch_target(m, m.reg(source) == m.operand(value), m.operand(target) as int),
        ),
        Instruction::BNE(target, source, value) => Some(
            branch_target(m, m.reg(source) != m.operand(value), m.operand(target) as int),
        ),
        Instruction::BGE(target, source, value) => Some(
            branch_target(m, m.reg(source) >= m.operand(value), m.operand(target) as int),
        ),
        Instruction::BLE(target, source, value) => Some(
            branch_target(m, m.reg(source) <= m.operand(value), m.operand(target) as int),
        ),
        Instruction::BGT(target, source, value) => Some(
            branch_target(m, m.reg(source) > m.operand(value), m.operand(target) as int),
        ),
        Instruction::BLT(target, source, value) => Some(
            branch_target(m, m.reg(source) < m.operand(value), m.operand(target) as int),
        ),
        Instruction::JPR(target) => Some(relative(m, target)),
        Instruction::BREZ(target, source) => Some(
            branch_target(m, m.reg(source) == 0, relative(m, target)),
        ),
        Instruction::BRNZ(target, source) => Some(
            branch_target(m, m.reg(source) != 0, relative(m, target)),
        ),
        Instruction::BREQ(target, source, value) => Some(
            branch_target(m, m.reg(source) == m.operand(value), relative(m, target)),
        ),
        Instruction::BRNE(target, source, value) => Some(
            branch_target(m, m.reg(source) != m.operand(value), relative(m, target)),
        ),
        Instruction::BRGE(target, source, value) => Some(
            branch_target(m, m.reg(source) >= m.operand(value), relative(m, target)),
        ),
        Instruction::BRLE(target, source, value) => Some(
            branch_target(m, m.reg(source) <= m.operand(value), relative(m, target)),
        ),
        Instruction::BRGT(target, source, value) => Some(
            branch_target(m, m.reg(source) > m.operand(value), relative(m, target)),
        ),
        Instruction::BRLT(target, source, value) => Some(
            branch_target(m, m.reg(source) < m.operand(value), relative(m, target)),
        ),
        Instruction::JSR(target) => Some(m.operand(target) as int),
        Instruction::RTS => Some(m.top() as int),
        _ => None,
    }
}

/// A jump, branch or subroutine instruction whose target is outside the
/// program halts the machine with `InvalidPC` and leaves the program counter
/// where it is. All but `RTS`, which has popped its target, leave the whole
/// state as it is. (`JSR` on a full stack halts with `StackOverflow`
/// before it looks at its target, so that case is left out.)
#[verifier::rlimit(50)]
pub proof fn lemma_invalid_target_halts(m: TpuModel, instruction: Instruction, wait_cycles: u16)
    requires
        flow_target(m, instruction) is Some,
        !(0 <= flow_target(m, instruction)->0 < m.rom.len()),
        instruction is JSR ==> m.stack.len() < TPU::STACK_SIZE,
    ensures
        spec_execute(m, instruction, wait_cycles).1 == ExecuteResult::Halt(HaltReason::InvalidPC),
        spec_execute(m, instruction, wait_cycles).0.program_counter == m.program_counter,
        !(instruction is RTS) ==> spec_execute(m, instruction, wait_cycles).0 == m,
{
    reveal(spec_execute);
    match instruction {
        Instruction::JMP(_) | Instruction::JPR(_) => {},
        Instruction::BEZ(_, _) | Instruction::BNZ(_, _) => {},
        Instruction::BREZ(_, _) | Instruction::BRNZ(_, _) => {},
        Instruction::BEQ(_, _, _) | Instruction::BNE(_, _, _) => {},
        Instruction::BGE(_, _, _) | Instruction::BLE(_, _, _) => {},
        Instruction::BGT(_, _, _) | Instruction::BLT(_, _, _) => {},
        Instruction::BREQ(_, _, _) | Instruction::BRNE(_, _, _) => {},
        Instruction::BRGE(_, _, _) | Instruction::BRLE(_, _, _) => {},
        Instruction::BRGT(_, _, _) | Instruction::BRLT(_, _, _) => {},
        Instruction::JSR(_) => {},
        Instruction::RTS => {},
        _ => {},
    }
}

/// A jump, branch or subroutine instruction whose target is inside the
/// program moves the program counter there.
#[verifier::rlimit(50)]
pub proof fn lemma_valid_target_jumps(m: TpuModel, instruction: Instruction, wait_cycles: u16)
    requires
        flow_target(m, instruction) is Some,
        0 <= flow_target(m, instruction)->0 < m.rom.len(),
        instruction is JSR ==> m.stack.len() < TPU::STACK_SIZE,
    ensures
        spec_execute(m, instruction, wait_cycles).1 == ExecuteResult::PCModified,
        spec_execute(m, instruction, wait_cycles).0.program_counter == flow_target(
            m,
            instruction,
        )->0,
{
    reveal(spec_execute);
    match instruction {
        Instruction::JMP(_) | Instruction::JPR(_) => {},
        Instruction::BEZ(_, _) | Instruction::BNZ(_, _) => {},
        Instruction::BREZ(_, _) | Instruction::BRNZ(_, _) => {},
        Instruction::BEQ(_, _, _) | Instruction::BNE(_, _, _) => {},
        Instruction::BGE(_, _, _) | Instruction::BLE(_, _, _) => {},
        Instruction::BGT(_, _, _) | Instruction::BLT(_, _, _) => {},
        Instruction::BREQ(_, _, _) | Instruction::BRNE(_, _, _) => {},
        Instruction::BRGE(_, _, _) | Instruction::BRLE(_, _, _) => {},
        Instruction::BRGT(_, _, _) | Instruction::BRLT(_, _, _) => {},
        Instruction::JSR(_) => {},
        Instruction::RTS => {},
        _ => {},
    }
}

/// A write to a pin that is configured as an input changes nothing and does
/// not halt the machine: `DPW` and `APW` leave the whole state as it is.
pub proof fn lemma_write_to_input_pin(
    m: TpuModel,
    pin: OperandValueType,
    value: OperandValueType,
    wait_cycles: u16,
)
    requires
        m.wf(),
    ensures
        m.operand(pin) < DigitalPin::COUNT && m.digital_pin_config[m.operand(pin) as int]
            ==> spec_execute(m, Instruction::DPW(pin, value), wait_cycles) == (
            m,
            ExecuteResult::PCAdvance,
        ),
        m.operand(pin) < AnalogPin::COUNT && m.analog_pin_config[m.operand(pin) as int]
            ==> spec_execute(m, Instruction::APW(pin, value), wait_cycles) == (
            m,
            ExecuteResult::PCAdvance,
        ),
{
    reveal(spec_execute);
}

/// `DPWW` does not halt the machine and leaves every digital line that is
/// configured as an input at its level; every output takes its bit.
pub proof fn lemma_write_word_keeps_input_pins(
    m: TpuModel,
    value: OperandValueType,
    wait_cycles: u16,
    pin: int,
)
    requires
        m.wf(),
        0 <= pin < DigitalPin::COUNT,
    ensures
        spec_execute(m, Instruction::DPWW(value), wait_cycles).1 == ExecuteResult::PCAdvance,
        m.digital_pin_config[pin] ==> spec_execute(
            m,
            Instruction::DPWW(value),
            wait_cycles,
        ).0.digital_pins[pin] == m.digital_pins[pin],
        !m.digital_pin_config[pin] ==> spec_execute(
            m,
            Instruction::DPWW(value),
            wait_cycles,
        ).0.digital_pins[pin] == bit_of(m.operand(value), pin),
{
    reveal(spec_execute);
}

/// On a machine whose digital lines are all outputs, `DPWW` of a value and
/// then `DPRW` into a register leaves the low 8 bits of the value in the
/// register.
pub proof fn lemma_write_word_then_read_word(
    m: TpuModel,
    value: OperandValueType,
    target: Register,
    wait_cycles: u16,
)
    requires
        m.wf(),
        forall|i: int| 0 <= i < DigitalPin::COUNT ==> !m.digital_pin_config[i],
    ensures
        spec_execute(
            spec_execute(m, Instruction::DPWW(value), wait_cycles).0,
            Instruction::DPRW(target),
            wait_cycles,
        ).0.reg(target) == m.operand(value) & 0xff,
{
    reveal(spec_execute);
    let word = m.operand(value);
    let written = spec_execute(m, Instruction::DPWW(value), wait_cycles).0;
    assert(written.digital_pins =~= Seq::new(8, |i: int| bit_of(word, i)));
    lemma_pack_bits(word);
}

/// The eight low bits of a word, packed again, are the word's low byte.
pub proof fn lemma_pack_bits(word: u16)
    ensures
        pack_pins(Seq::new(8, |i: int| bit_of(word, i)), 8) == word & 0xff,
{
    let pins = Seq::new(8, |i: int| bit_of(word, i));
    reveal_with_fuel(pack_pins, 9);
    let b0 = if word & (1u16 << 0u16) != 0 { 1u16 << 0u16 } else { 0u16 };
    let b1 = if word & (1u16 << 1u16) != 0 { 1u16 << 1u16 } else { 0u16 };
    let b2 = if word & (1u16 << 2u16) != 0 { 1u16 << 2u16 } else { 0u16 };
    let b3 = if word & (1u16 << 3u16) != 0 { 1u16 << 3u16 } else { 0u16 };
    let b4 = if word & (1u16 << 4u16) != 0 { 1u16 << 4u16 } else { 0u16 };
    let b5 = if word & (1u16 << 5u16) != 0 { 1u16 << 5u16 } else { 0u16 };
    let b6 = if word & (1u16 << 6u16) != 0 { 1u16 << 6u16 } else { 0u16 };
    let b7 = if word & (1u16 << 7u16) != 0 { 1u16 << 7u16 } else { 0u16 };
    assert(pack_pins(pins, 8) == (((((((0u16 | b0) | b1) | b2) | b3) | b4) | b5) | b6) | b7);
    assert((((((((0u16 | b0) | b1) | b2) | b3) | b4) | b5) | b6) | b7 == word & 0xff)
        by (bit_vector)
        requires
            b0 == if word & (1u16 << 0u16) != 0 { 1u16 << 0u16 } else { 0u16 },
            b1 == if word & (1u16 << 1u16) != 0 { 1u16 << 1u16 } else { 0u16 },
            b2 == if word & (1u16 << 2u16) != 0 { 1u16 << 2u16 } else { 0u16 },
            b3 == if word & (1u16 << 3u16) != 0 { 1u16 << 3u16 } else { 0u16 },
            b4 == if word & (1u16 << 4u16) != 0 { 1u16 << 4u16 } else { 0u16 },
            b5 == if word & (1u16 << 5u16) != 0 { 1u16 << 5u16 } else { 0u16 },
            b6 == if word & (1u16 << 6u16) != 0 { 1u16 << 6u16 } else { 0u16 },
            b7 == if word & (1u16 << 7u16) != 0 { 1u16 << 7u16 } else { 0u16 },
    ;
}

/// Every instruction takes at least one cycle.
pub proof fn lemma_decode_at_least_one_cycle(instruction: Instruction)
    ensures
        spec_decode(instruction).cycles >= 1,
{
}

/// A jump, a branch, a subroutine instruction or `WRX`: the instructions
/// that move the program counter themselves or block.
pub open spec fn is_flow_or_blocking(instruction: Instruction) -> bool {
    match instruction {
        Instruction::JMP(_)
        | Instruction::BEZ(_, _)
        | Instruction::BNZ(_, _)
        | Instruction::BEQ(_, _, _)
        | Instruction::BNE(_, _, _)
        | Instruction::BGE(_, _, _)
        | Instruction::BLE(_, _, _)
        | Instruction::BGT(_, _, _)
        | Instruction::BLT(_, _, _)
        | Instruction::JPR(_)
        | Instruction::BREZ(_, _)
        | Instruction::BRNZ(_, _)
        | Instruction::BREQ(_, _, _)
        | Instruction::BRNE(_, _, _)
        | Instruction::BRGE(_, _, _)
        | Instruction::BRLE(_, _, _)
        | Instruction::BRGT(_, _, _)
        | Instruction::BRLT(_, _, _)
        | Instruction::JSR(_)
        | Instruction::RTS
        | Instruction::WRX => true,
        _ => false,
    }
}

/// The instructions that run on every cycle are the jumps, the branches,
/// the subroutine instructions and `WRX`.
pub proof fn lemma_every_cycle_is_flow_or_blocking(instruction: Instruction)
    ensures
        spec_decode(instruction).call_every_cycle <==> is_flow_or_blocking(instruction),
{
}

/// The flags of the engine fit the instruction in flight: with nothing in
/// flight nothing runs on every cycle, and an instruction in flight runs on
/// every cycle only if it is decoded so. A halted machine is left out: it
/// keeps the flags that it halted with.
pub open spec fn engine_consistent(m: TpuModel) -> bool {
    m.halted || match m.instruction {
        None => !m.execute_each_cycle,
        Some(instruction) => m.execute_each_cycle ==> spec_decode(
            instruction,
        ).call_every_cycle,
    }
}

/// A clock cycle keeps the flags of the engine fitting. So on a machine
/// that started fresh, an instruction that runs on every cycle is a jump, a
/// branch, a subroutine instruction or `WRX`.
#[verifier::rlimit(50)]
pub proof fn lemma_tick_keeps_engine_consistent(m: TpuModel)
    requires
        engine_consistent(m),
    ensures
        engine_consistent(spec_tick(m)),
{
    if !m.halted && 0 <= m.program_counter < m.rom.len() {
        let waited = m.set_wait(
            if m.wait_cycles > 0 {
                (m.wait_cycles - 1) as u16
            } else {
                0
            },
        );
        let instruction = m.rom[m.program_counter];
        lemma_execute_program_counter(waited, instruction, 1);
        if m.instruction is Some {
            let cleared = TpuModel { instruction: None, ..waited };
            lemma_execute_program_counter(cleared, m.instruction->0, waited.wait_cycles);
        }
    }
}

/// A machine that has just been made is well formed, if there are four
/// analog and eight digital pin directions, and the flags of its engine fit.
pub proof fn lemma_initial_state(
    network_address: u16,
    analog_pin_config: Seq<bool>,
    digital_pin_config: Seq<bool>,
    rom: Seq<Instruction>,
)
    requires
        analog_pin_config.len() == 4,
        digital_pin_config.len() == 8,
    ensures
        initial(network_address, analog_pin_config, digital_pin_config, rom).wf(),
        initial(network_address, analog_pin_config, digital_pin_config, rom).idle(),
        engine_consistent(initial(network_address, analog_pin_config, digital_pin_config, rom)),
{
}

/// However many clock cycles a machine runs, it stays well formed if it
/// was, so its stack never holds more than 16 words; the flags of its
/// engine keep fitting if they did; and after the first cycle it is halted
/// or its program counter is inside the program.
pub proof fn lemma_ticks_keep_invariants(m: TpuModel, cycles: nat)
    ensures
        m.wf() ==> spec_ticks(m, cycles).wf(),
        engine_consistent(m) ==> engine_consistent(spec_ticks(m, cycles)),
        cycles > 0 ==> spec_ticks(m, cycles).pc_valid(),
    decreases cycles,
{
    if cycles > 0 {
        let before = spec_ticks(m, (cycles - 1) as nat);
        lemma_ticks_keep_invariants(m, (cycles - 1) as nat);
        if before.wf() {
            lemma_tick_preserves_wf(before);
        }
        if engine_consistent(before) {
            lemma_tick_keeps_engine_consistent(before);
        }
        lemma_tick_program_counter(before);
    }
}

/// A step is a number of clock cycles, no more than its limit. It ends
/// with the machine halted or the program counter moved, unless it has
/// used up the limit.
pub proof fn lemma_step_is_ticks(m: TpuModel, program_counter: int, limit: nat) -> (cycles: nat)
    ensures
        cycles <= limit,
        spec_step(m, program_counter, limit) == spec_ticks(m, cycles),
        cycles == limit || spec_step(m, program_counter, limit).halted || spec_step(
            m,
            program_counter,
            limit,
        ).program_counter != program_counter,
    decreases limit,
{
    if limit == 0 || m.halted || m.program_counter != program_counter {
        0
    } else {
        let rest = lemma_step_is_ticks(spec_tick(m), program_counter, (limit - 1) as nat);
        lemma_ticks_after_tick(m, rest);
        rest + 1
    }
}

/// One clock cycle and then `n` more are `n + 1` clock cycles.
pub proof fn lemma_ticks_after_tick(m: TpuModel, n: nat)
    ensures
        spec_ticks(spec_tick(m), n) == spec_ticks(m, n + 1),
    decreases n,
{
    if n > 0 {
        lemma_ticks_after_tick(m, (n - 1) as nat);
    } else {
        assert(spec_ticks(m, 1) == spec_tick(spec_ticks(m, 0)));
    }
}

/// An instruction in flight that does not run on every cycle waits until
/// its counter has run down: each clock cycle takes one off the counter and
/// changes nothing else, and the cycle that brings it to 0 runs the body.
pub proof fn lemma_waiting(m: TpuModel, cycles: nat)
    requires
        !m.halted,
        0 <= m.program_counter < m.rom.len(),
        m.instruction is Some,
        !m.execute_each_cycle,
        m.wait_cycles >= 1,
        cycles <= m.wait_cycles,
    ensures
        cycles < m.wait_cycles ==> spec_ticks(m, cycles) == m.set_wait(
            (m.wait_cycles - cycles) as u16,
        ),
        cycles == m.wait_cycles ==> spec_ticks(m, cycles) == run(
            TpuModel { instruction: None, wait_cycles: 0, ..m },
            m.instruction->0,
            0,
        ),
    decreases cycles,
{
    if cycles > 0 {
        lemma_waiting(m, (cycles - 1) as nat);
        let before = m.set_wait((m.wait_cycles - cycles + 1) as u16);
        assert(spec_ticks(m, (cycles - 1) as nat) == before);
        assert(spec_ticks(m, cycles) == spec_tick(before));
    } else {
        assert(m.set_wait(m.wait_cycles) == m);
    }
}

/// An instruction that does not run on every cycle takes as many clock
/// cycles as it is decoded with. Fetched by an idle machine, it is in
/// flight with nothing else changed until the last of these cycles, and the
/// last cycle runs its body.
pub proof fn lemma_instruction_takes_its_cycles(m: TpuModel, cycles: nat)
    requires
        !m.halted,
        0 <= m.program_counter < m.rom.len(),
        m.idle(),
        !spec_decode(m.rom[m.program_counter]).call_every_cycle,
        1 <= cycles <= spec_decode(m.rom[m.program_counter]).cycles,
    ensures
        cycles < spec_decode(m.rom[m.program_counter]).cycles ==> spec_ticks(m, cycles) == (
        TpuModel {
            instruction: Some(m.rom[m.program_counter]),
            wait_cycles: (spec_decode(m.rom[m.program_counter]).cycles - cycles) as u16,
            ..m
        }),
        cycles == spec_decode(m.rom[m.program_counter]).cycles ==> spec_ticks(m, cycles) == run(
            m.set_wait(0),
            m.rom[m.program_counter],
            if cycles == 1 {
                1u16
            } else {
                0u16
            },
        ),
{
    let instruction = m.rom[m.program_counter];
    let decoded = spec_decode(instruction);
    lemma_ticks_after_tick(m, (cycles - 1) as nat);
    assert(spec_ticks(spec_tick(m), 0) == spec_tick(m));
    if decoded.cycles > 1 {
        let fetched = TpuModel {
            instruction: Some(instruction),
            wait_cycles: (decoded.cycles - 1) as u16,
            ..m
        };
        assert(spec_tick(m) == fetched);
        lemma_waiting(fetched, (cycles - 1) as nat);
        assert(TpuModel { instruction: None, wait_cycles: 0, ..fetched } == m.set_wait(0));
    }
}

/// An instruction that runs on every cycle does not wait for its counter:
/// fetched by an idle machine with two cycles or more, its body runs in the
/// clock cycle after the fetch. (With one cycle it runs in the cycle of the
/// fetch, like any other.)
pub proof fn lemma_every_cycle_runs_after_fetch(m: TpuModel)
    requires
        !m.halted,
        0 <= m.program_counter < m.rom.len(),
        m.idle(),
        spec_decode(m.rom[m.program_counter]).call_every_cycle,
        spec_decode(m.rom[m.program_counter]).cycles >= 2,
    ensures
        spec_ticks(m, 2) == run(
            TpuModel {
                wait_cycles: (spec_decode(m.rom[m.program_counter]).cycles - 2) as u16,
                execute_each_cycle: true,
                ..m
            },
            m.rom[m.program_counter],
            (spec_decode(m.rom[m.program_counter]).cycles - 2) as u16,
        ),
{
    lemma_ticks_after_tick(m, 1);
    assert(spec_ticks(spec_tick(m), 1) == spec_tick(spec_ticks(spec_tick(m), 0)));
}

/// An instruction of one cycle whose body asks for the next word moves the
/// program counter by one in the clock cycle that fetches it. So a program
/// of such instructions advances by one word per clock cycle.
pub proof fn lemma_single_cycle_advances(m: TpuModel)
    requires
        !m.halted,
        0 <= m.program_counter < m.rom.len(),
        m.idle(),
        spec_decode(m.rom[m.program_counter]).cycles == 1,
        spec_execute(m.set_wait(0), m.rom[m.program_counter], 1).1 == ExecuteResult::PCAdvance,
    ensures
        spec_tick(m).program_counter == m.program_counter + 1,
        spec_tick(m).idle(),
{
    lemma_execute_program_counter(m.set_wait(0), m.rom[m.program_counter], 1);
}

/// `SLP` delays the machine by as many clock cycles as it sleeps: the
/// operand's value, and one more if the operand is a register. Fetched by
/// an idle machine, it leaves the program counter where it is for that many
/// clock cycles, the cycle of the fetch included, and the cycle after them
/// moves the counter to the next word.
pub proof fn lemma_sleep(m: TpuModel, value: OperandValueType, cycles: nat)
    requires
        !m.halted,
        0 <= m.program_counter < m.rom.len(),
        m.idle(),
        m.rom[m.program_counter] == Instruction::SLP(value),
        1 <= cycles <= sleep_cycles(m, value) + 1,
    ensures
        cycles <= sleep_cycles(m, value) ==> spec_ticks(m, cycles).program_counter
            == m.program_counter && !spec_ticks(m, cycles).halted,
        cycles == sleep_cycles(m, value) + 1 ==> spec_ticks(m, cycles).program_counter
            == m.program_counter + 1,
{
    reveal(spec_execute);
    let instruction = Instruction::SLP(value);
    let sleep = sleep_cycles(m, value);
    lemma_ticks_after_tick(m, (cycles - 1) as nat);
    assert(spec_ticks(spec_tick(m), 0) == spec_tick(m));
    assert(sleep_cycles(m.set_wait(0), value) == sleep);
    if sleep > 0 {
        let asleep = TpuModel { instruction: Some(instruction), wait_cycles: sleep, ..m };
        assert(spec_tick(m) == asleep);
        if cycles > 1 {
            lemma_waiting(asleep, (cycles - 1) as nat);
            let awake = TpuModel { instruction: None, wait_cycles: 0, ..asleep };
            assert(sleep_cycles(awake, value) == sleep);
        }
    }
}

} // verus!
