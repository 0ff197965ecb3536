//! The executor: what each instruction does to the machine.
use crate::shared::{
    AnalogPin, DigitalPin, ExecuteResult, HaltReason, Instruction, OperandValueType, Register,
};
use crate::tpu::alu::{
    carry_left, carry_right, rotate_left, rotate_right, shift_left, shift_right,
};
use crate::tpu::flow::{branch, call, jump, relative};
use crate::tpu::io_matrix::receive;
use crate::tpu::mmu::{increment, load_offset, store_offset};
use crate::tpu::model::{surcharge, wrap16, TpuModel};
use crate::tpu::{alu, flow, io_matrix, mmu, TPU};
use vstd::prelude::*;

verus! {

/// The instruction is done with state `m`; the program counter moves on.
pub open spec fn advance(m: TpuModel) -> (TpuModel, ExecuteResult) {
    (m, ExecuteResult::PCAdvance)
}

/// The instruction halts the machine in state `m`.
pub open spec fn halt(m: TpuModel, reason: HaltReason) -> (TpuModel, ExecuteResult) {
    (m, ExecuteResult::Halt(reason))
}

/// How long `SLP` sleeps: the operand's value, and one more if the operand
/// is a register; at most 65535.
pub open spec fn sleep_cycles(m: TpuModel, value: OperandValueType) -> u16 {
    if surcharge(value) + m.operand(value) > u16::MAX {
        u16::MAX
    } else {
        (surcharge(value) + m.operand(value)) as u16
    }
}

/// State and outcome of `SLP`. The body runs twice. When the instruction is
/// fetched (`wait_cycles` is not 0) it puts the sleep into the wait counter
/// and stays in flight; with nothing to sleep it is done at once. When the
/// counter has run down (`wait_cycles` is 0) it is done.
pub open spec fn sleep(m: TpuModel, value: OperandValueType, wait_cycles: u16) -> (
    TpuModel,
    ExecuteResult,
) {
    if wait_cycles == 0 || sleep_cycles(m, value) == 0 {
        advance(m)
    } else {
        (m.set_wait(sleep_cycles(m, value)), ExecuteResult::NoPCAdvance)
    }
}

/// State and outcome of `WRX`: with nothing to receive the instruction stays
/// in flight and asks to run again on the next cycle; else it receives.
pub open spec fn wait_receive(m: TpuModel) -> (TpuModel, ExecuteResult) {
    if m.incoming_packets.len() == 0 {
        (m.set_wait(1), ExecuteResult::NoPCAdvance)
    } else {
        advance(receive(m.set_wait(4)))
    }
}

/// State and outcome of the body of `instruction` in state `m`, where
/// `wait_cycles` is what the engine hands to the body: 1 when the body runs
/// in the cycle of the fetch, else the wait counter.
#[verifier::opaque]
pub open spec fn spec_execute(m: TpuModel, instruction: Instruction, wait_cycles: u16) -> (
    TpuModel,
    ExecuteResult,
) {
    match instruction {
        Instruction::PUSH(source) => if m.stack.len() >= TPU::STACK_SIZE {
            halt(m, HaltReason::StackOverflow)
        } else {
            advance(m.push(m.operand(source)))
        },
        Instruction::POP(target) => advance(m.pop().set_reg(target, m.top())),
        Instruction::PEEK(target, index) => if m.operand(index) >= m.stack.len() {
            halt(m, HaltReason::IndexOutOfRange)
        } else {
            advance(m.set_reg(target, m.stack[m.operand(index) as int]))
        },
        Instruction::SCR => advance(TpuModel { stack: Seq::empty(), ..m }),
        Instruction::RSP(target) => advance(m.set_reg(target, wrap16(m.stack.len() as int))),
        Instruction::XMIT(target, data) => if m.outgoing_packets.len() < TPU::NET_BUFFER_SIZE {
            advance(m.send_packet(m.reg(target), m.operand(data)))
        } else {
            advance(m)
        },
        Instruction::RECV => advance(receive(m)),
        Instruction::TXBS => advance(
            m.set_reg(Register::X, wrap16(m.outgoing_packets.len() as int)),
        ),
        Instruction::RXBS => advance(
            m.set_reg(Register::X, wrap16(m.incoming_packets.len() as int)),
        ),
        Instruction::WRX => wait_receive(m),
        Instruction::ADD(left, right) => advance(
            m.set_reg(Register::A, wrap16(m.reg(left) + m.reg(right))),
        ),
        Instruction::SUB(left, right) => advance(
            m.set_reg(Register::A, wrap16(m.reg(left) - m.reg(right))),
        ),
        Instruction::MUL(left, right) => advance(
            m.set_reg(Register::A, wrap16(m.reg(left) * m.reg(right))),
        ),
        Instruction::DIV(left, right) => if m.reg(right) == 0 {
            halt(m, HaltReason::Div0)
        } else {
            advance(m.set_reg(Register::A, m.reg(left) / m.reg(right)))
        },
        Instruction::MOD(left, right) => if m.reg(right) == 0 {
            halt(m, HaltReason::Div0)
        } else {
            advance(m.set_reg(Register::A, m.reg(left) % m.reg(right)))
        },
        Instruction::AND(left, right) => advance(
            m.set_reg(Register::A, m.reg(left) & m.reg(right)),
        ),
        Instruction::OR(left, right) => advance(
            m.set_reg(Register::A, m.reg(left) | m.reg(right)),
        ),
        Instruction::XOR(left, right) => advance(
            m.set_reg(Register::A, m.reg(left) ^ m.reg(right)),
        ),
        Instruction::NOT(value) => advance(m.set_reg(Register::A, !m.reg(value))),
        Instruction::INC(target) => advance(m.set_reg(target, wrap16(m.reg(target) + 1))),
        Instruction::DEC(target) => advance(m.set_reg(target, wrap16(m.reg(target) - 1))),
        Instruction::SLL(target, source, shift) => advance(
            m.set_reg(target, shift_left(m.reg(source), m.operand(shift))),
        ),
        Instruction::SLR(target, source, shift) => advance(
            m.set_reg(target, shift_right(m.reg(source), m.operand(shift))),
        ),
        Instruction::SLC(target, source, shift) => advance(
            m.set_reg(target, shift_left(m.reg(source), m.operand(shift))).set_reg(
                Register::A,
                carry_left(m.reg(source), m.operand(shift)),
            ),
        ),
        Instruction::SRC(target, source, shift) => advance(
            m.set_reg(target, shift_right(m.reg(source), m.operand(shift))).set_reg(
                Register::A,
                carry_right(m.reg(source), m.operand(shift)),
            ),
        ),
        Instruction::ROL(target, source, shift) => advance(
            m.set_reg(target, rotate_left(m.reg(source), m.operand(shift))),
        ),
        Instruction::ROR(target, source, shift) => advance(
            m.set_reg(target, rotate_right(m.reg(source), m.operand(shift))),
        ),
        Instruction::RCY(target, source) => advance(m.set_reg(target, m.reg(source))),
        Instruction::RMV(target, source) => advance(
            m.set_reg(target, m.reg(source)).set_reg(source, 0),
        ),
        Instruction::LDR(target, source) => advance(m.set_reg(target, m.operand(source))),
        Instruction::LDO(target, source, offset) => advance(load_offset(m, target, source, offset)),
        Instruction::LDOI(target, source, offset) => advance(
            increment(load_offset(m, target, source, offset), offset),
        ),
        Instruction::STM(target, source) => advance(
            m.write_ram(m.operand(target) as int, m.operand(source)),
        ),
        Instruction::STMO(target, source, offset) => advance(
            store_offset(m, target, source, offset),
        ),
        Instruction::SMOI(target, source, offset) => advance(
            increment(store_offset(m, target, source, offset), offset),
        ),
        Instruction::DPW(pin, value) => if m.operand(pin) >= DigitalPin::COUNT {
            halt(m, HaltReason::IndexOutOfRange)
        } else {
            advance(m.set_digital_pin(m.operand(pin) as int, m.operand(value) != 0))
        },
        Instruction::DPR(target, pin) => if m.operand(pin) >= DigitalPin::COUNT {
            halt(m, HaltReason::IndexOutOfRange)
        } else {
            advance(
                m.set_reg(
                    target,
                    if m.digital_pins[m.operand(pin) as int] {
                        1
                    } else {
                        0
                    },
                ),
            )
        },
        Instruction::DPWW(value) => advance(m.set_digital_pins(m.operand(value))),
        Instruction::DPRW(target) => advance(m.set_reg(target, m.digital_word())),
        Instruction::APW(pin, value) => if m.operand(pin) >= AnalogPin::COUNT {
            halt(m, HaltReason::IndexOutOfRange)
        } else {
            advance(m.set_analog_pin(m.operand(pin) as int, m.operand(value)))
        },
        Instruction::APR(target, pin) => if m.operand(pin) >= AnalogPin::COUNT {
            halt(m, HaltReason::IndexOutOfRange)
        } else {
            advance(m.set_reg(target, m.analog_pins[m.operand(pin) as int]))
        },
        Instruction::SLP(value) => sleep(m, value, wait_cycles),
        Instruction::NOP => advance(m),
        Instruction::HLT => halt(m, HaltReason::HLTOpcode),
        Instruction::JMP(target) => jump(m, m.operand(target) as int),
        Instruction::BEZ(target, source) => branch(m, m.reg(source) == 0, m.operand(target) as int),
        Instruction::BNZ(target, source) => branch(m, m.reg(source) != 0, m.operand(target) as int),
        Instruction::BEQ(target, source, value) => branch(
            m,
            m.reg(source) == m.operand(value),
            m.operand(target) as int,
        ),
        Instruction::BNE(target, source, value) => branch(
            m,
            m.reg(source) != m.operand(value),
            m.operand(target) as int,
        ),
        Instruction::BGE(target, source, value) => branch(
            m,
            m.reg(source) >= m.operand(value),
            m.operand(target) as int,
        ),
        Instruction::BLE(target, source, value) => branch(
            m,
            m.reg(source) <= m.operand(value),
            m.operand(target) as int,
        ),
        Instruction::BGT(target, source, value) => branch(
            m,
            m.reg(source) > m.operand(value),
            m.operand(target) as int,
        ),
        Instruction::BLT(target, source, value) => branch(
            m,
            m.reg(source) < m.operand(value),
            m.operand(target) as int,
        ),
        Instruction::JPR(target) => jump(m, relative(m, target)),
        Instruction::BREZ(target, source) => branch(m, m.reg(source) == 0, relative(m, target)),
        Instruction::BRNZ(target, source) => branch(m, m.reg(source) != 0, relative(m, target)),
        Instruction::BREQ(target, source, value) => branch(
            m,
            m.reg(source) == m.operand(value),
            relative(m, target),
        ),
        Instruction::BRNE(target, source, value) => branch(
            m,
            m.reg(source) != m.operand(value),
            relative(m, target),
        ),
        Instruction::BRGE(target, source, value) => branch(
            m,
            m.reg(source) >= m.operand(value),
            relative(m, target),
        ),
        Instruction::BRLE(target, source, value) => branch(
            m,
            m.reg(source) <= m.operand(value),
            relative(m, target),
        ),
        Instruction::BRGT(target, source, value) => branch(
            m,
            m.reg(source) > m.operand(value),
            relative(m, target),
        ),
        Instruction::BRLT(target, source, value) => branch(
            m,
            m.reg(source) < m.operand(value),
            relative(m, target),
        ),
        Instruction::JSR(target) => call(m, m.operand(target) as int),
        Instruction::RTS => jump(m.pop(), m.top() as int),
    }
}

/// Run the body of an instruction: see [`spec_execute`]. A well-formed
/// machine stays well formed.
#[verifier::rlimit(50)]
pub fn execute(
    tpu: &mut TPU,
    instruction: &Instruction,
    wait_cycles: u16,
) -> (result: ExecuteResult)
    ensures
        (final(tpu)@, result) == spec_execute(old(tpu)@, *instruction, wait_cycles),
        old(tpu).wf() ==> final(tpu).wf(),
{
    proof {
        reveal(spec_execute);
        if tpu.wf() {
            crate::tpu::theorems::lemma_execute_preserves_wf(tpu@, *instruction, wait_cycles);
        }
    }
    match instruction {
        Instruction::PUSH(source) => mmu::op_push(tpu, source),
        Instruction::POP(target) => mmu::op_pop(tpu, target),
        Instruction::PEEK(target, source) => mmu::op_peek(tpu, target, source),
        Instruction::SCR => mmu::op_scr(tpu),
        Instruction::RSP(target) => mmu::op_rsp(tpu, target),
        Instruction::XMIT(target, data) => io_matrix::op_xmit(tpu, target, data),
        Instruction::RECV => io_matrix::op_recv(tpu),
        Instruction::TXBS => io_matrix::op_txbs(tpu),
        Instruction::RXBS => io_matrix::op_rxbs(tpu),
        Instruction::WRX => TPU::op_wrx(tpu),
        Instruction::ADD(left, right) => alu::op_add(tpu, left, right),
        Instruction::SUB(left, right) => alu::op_sub(tpu, left, right),
        Instruction::MUL(left, right) => alu::op_mul(tpu, left, right),
        Instruction::DIV(left, right) => alu::op_div(tpu, left, right),
        Instruction::MOD(left, right) => alu::op_mod(tpu, left, right),
        Instruction::AND(left, right) => alu::op_and(tpu, left, right),
        Instruction::OR(left, right) => alu::op_or(tpu, left, right),
        Instruction::XOR(left, right) => alu::op_xor(tpu, left, right),
        Instruction::NOT(value) => alu::op_not(tpu, value),
        Instruction::INC(target) => alu::op_inc(tpu, target),
        Instruction::DEC(target) => alu::op_dec(tpu, target),
        Instruction::SLL(target, source, shift) => alu::op_sll(tpu, target, source, shift),
        Instruction::SLR(target, source, shift) => alu::op_slr(tpu, target, source, shift),
        Instruction::SLC(target, source, shift) => alu::op_slc(tpu, target, source, shift),
        Instruction::SRC(target, source, shift) => alu::op_src(tpu, target, source, shift),
        Instruction::ROL(target, source, shift) => alu::op_rol(tpu, target, source, shift),
        Instruction::ROR(target, source, shift) => alu::op_ror(tpu, target, source, shift),
        Instruction::RCY(target, source) => mmu::op_rcy(tpu, target, source),
        Instruction::RMV(target, source) => mmu::op_rmv(tpu, target, source),
        Instruction::LDR(target, source) => mmu::op_ldr(tpu, target, source),
        Instruction::LDO(target, source, offset) => mmu::op_ldo(tpu, target, source, offset),
        Instruction::LDOI(target, source, offset) => mmu::op_ldoi(tpu, target, source, offset),
        Instruction::STM(target, source) => mmu::op_stm(tpu, target, source),
        Instruction::STMO(target, source, offset) => mmu::op_stmo(tpu, target, source, offset),
        Instruction::SMOI(target, source, offset) => mmu::op_smoi(tpu, target, source, offset),
        Instruction::DPW(target, source) => io_matrix::op_dpw(tpu, target, source),
        Instruction::DPR(target, source) => io_matrix::op_dpr(tpu, target, source),
        Instruction::DPWW(value) => io_matrix::op_dpww(tpu, value),
        Instruction::DPRW(target) => io_matrix::op_dprw(tpu, target),
        Instruction::APW(target, source) => io_matrix::op_apw(tpu, target, source),
        Instruction::APR(target, source) => io_matrix::op_apr(tpu, target, source),
        Instruction::SLP(value) => tpu.op_slp(value, wait_cycles),
        Instruction::NOP => TPU::op_nop(),
        Instruction::HLT => TPU::op_hlt(),
        Instruction::JMP(target) => flow::op_jmp(tpu, target),
        Instruction::BEZ(target, source) => flow::op_bez(tpu, target, source),
        Instruction::BNZ(target, source) => flow::op_bnz(tpu, target, source),
        Instruction::BEQ(target, source, value) => flow::op_beq(tpu, target, source, value),
        Instruction::BNE(target, source, value) => flow::op_bne(tpu, target, source, value),
        Instruction::BGE(target, source, value) => flow::op_bge(tpu, target, source, value),
        Instruction::BLE(target, source, value) => flow::op_ble(tpu, target, source, value),
        Instruction::BGT(target, source, value) => flow::op_bgt(tpu, target, source, value),
        Instruction::BLT(target, source, value) => flow::op_blt(tpu, target, source, value),
        Instruction::JPR(target) => flow::op_jpr(tpu, target),
        Instruction::BREZ(target, source) => flow::op_brez(tpu, target, source),
        Instruction::BRNZ(target, source) => flow::op_brnz(tpu, target, source),
        Instruction::BREQ(target, source, value) => flow::op_breq(tpu, target, source, value),
        Instruction::BRNE(target, source, value) => flow::op_brne(tpu, target, source, value),
        Instruction::BRGE(target, source, value) => flow::op_brge(tpu, target, source, value),
        Instruction::BRLE(target, source, value) => flow::op_brle(tpu, target, source, value),
        Instruction::BRGT(target, source, value) => flow::op_brgt(tpu, target, source, value),
        Instruction::BRLT(target, source, value) => flow::op_brlt(tpu, target, source, value),
        Instruction::JSR(target) => flow::op_jsr(tpu, target),
        Instruction::RTS => flow::op_rts(tpu),
    }
}

} // verus!
