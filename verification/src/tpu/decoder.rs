//! The decoder: how many cycles an instruction takes, and whether its body
//! runs on every one of them.
use crate::shared::{DecodeResult, Instruction};
use crate::tpu::model::surcharge;
use crate::tpu::{alu, flow, io_matrix, mmu, TPU};
use std::rc::Rc;
use vstd::prelude::*;

verus! {

/// An instruction that takes `cycles` cycles and runs once, at their end.
pub open spec fn once(cycles: int) -> DecodeResult {
    DecodeResult { cycles: cycles as u16, call_every_cycle: false }
}

/// An instruction that takes `cycles` cycles and runs on every cycle.
pub open spec fn every(cycles: int) -> DecodeResult {
    DecodeResult { cycles: cycles as u16, call_every_cycle: true }
}

/// The cost of each instruction. An operand that is a register adds one
/// cycle where the table says so. Jumps, branches, subroutine instructions
/// and `WRX` run on every cycle.
pub open spec fn spec_decode(instruction: Instruction) -> DecodeResult {
    match instruction {
        Instruction::PUSH(operand) => once(1 + surcharge(operand)),
        Instruction::POP(_) => once(2),
        Instruction::PEEK(_, index) => once(1 + surcharge(index)),
        Instruction::SCR => once(2),
        Instruction::RSP(_) => once(1),
        Instruction::XMIT(_, _) => once(10),
        Instruction::RECV => once(10),
        Instruction::TXBS => once(2),
        Instruction::RXBS => once(2),
        Instruction::ADD(_, _) => once(2),
        Instruction::SUB(_, _) => once(2),
        Instruction::MUL(_, _) => once(4),
        Instruction::DIV(_, _) => once(6),
        Instruction::MOD(_, _) => once(6),
        Instruction::AND(_, _) => once(3),
        Instruction::OR(_, _) => once(3),
        Instruction::XOR(_, _) => once(3),
        Instruction::NOT(_) => once(3),
        Instruction::INC(_) => once(2),
        Instruction::DEC(_) => once(2),
        Instruction::SLL(_, _, shift) => once(2 + surcharge(shift)),
        Instruction::SLC(_, _, shift) => once(2 + surcharge(shift)),
        Instruction::SLR(_, _, shift) => once(2 + surcharge(shift)),
        Instruction::SRC(_, _, shift) => once(2 + surcharge(shift)),
        Instruction::ROL(_, _, shift) => once(2 + surcharge(shift)),
        Instruction::ROR(_, _, shift) => once(2 + surcharge(shift)),
        Instruction::RCY(_, _) => once(2),
        Instruction::RMV(_, _) => once(3),
        Instruction::LDR(_, source) => once(1 + surcharge(source)),
        Instruction::LDO(_, source, _) => once(2 + surcharge(source)),
        Instruction::LDOI(_, source, _) => once(3 + surcharge(source)),
        Instruction::STM(_, source) => once(1 + surcharge(source)),
        Instruction::STMO(_, source, _) => once(4 + surcharge(source)),
        Instruction::SMOI(_, source, _) => once(5 + surcharge(source)),
        Instruction::DPW(target, value) => once(4 + surcharge(target) + surcharge(value)),
        Instruction::DPR(_, source) => once(2 + surcharge(source)),
        Instruction::DPWW(value) => once(4 + surcharge(value)),
        Instruction::DPRW(_) => once(1),
        Instruction::APW(target, value) => once(4 + surcharge(target) + surcharge(value)),
        Instruction::APR(_, source) => once(4 + surcharge(source)),
        Instruction::NOP => once(1),
        Instruction::SLP(_) => once(1),
        Instruction::WRX => every(65535),
        Instruction::HLT => once(1),
        Instruction::JMP(target) => every(1 + surcharge(target)),
        Instruction::BEZ(_, _) => every(3),
        Instruction::BNZ(_, _) => every(3),
        Instruction::BEQ(_, _, _) => every(3),
        Instruction::BNE(_, _, _) => every(3),
        Instruction::BGE(_, _, _) => every(3),
        Instruction::BLE(_, _, _) => every(3),
        Instruction::BGT(_, _, _) => every(3),
        Instruction::BLT(_, _, _) => every(3),
        Instruction::JPR(target) => every(1 + surcharge(target)),
        Instruction::BREZ(_, _) => every(3),
        Instruction::BRNZ(_, _) => every(3),
        Instruction::BREQ(_, _, _) => every(3),
        Instruction::BRNE(_, _, _) => every(3),
        Instruction::BRGE(_, _, _) => every(3),
        Instruction::BRLE(_, _, _) => every(3),
        Instruction::BRGT(_, _, _) => every(3),
        Instruction::BRLT(_, _, _) => every(3),
        Instruction::JSR(target) => every(4 + surcharge(target)),
        Instruction::RTS => every(2),
    }
}

/// The cost of an instruction: see [`spec_decode`]. It is at least one cycle.
#[verifier::rlimit(50)]
pub fn decode(instruction: &Rc<Instruction>) -> (result: DecodeResult)
    ensures
        result == spec_decode(**instruction),
        result.cycles >= 1,
{
    match &**instruction {
        Instruction::PUSH(operand) => mmu::decode::decode_op_push(operand),
        Instruction::POP(_) => mmu::decode::decode_op_pop(),
        Instruction::PEEK(_, index) => mmu::decode::decode_op_peek(index),
        Instruction::SCR => mmu::decode::decode_op_scr(),
        Instruction::RSP(_) => mmu::decode::decode_op_rsp(),
        Instruction::XMIT(_, _) => io_matrix::decode::decode_op_xmit(),
        Instruction::RECV => io_matrix::decode::decode_op_recv(),
        Instruction::TXBS => io_matrix::decode::decode_op_txbs(),
        Instruction::RXBS => io_matrix::decode::decode_op_rxbs(),
        Instruction::ADD(_, _) => alu::decode::decode_op_add(),
        Instruction::SUB(_, _) => alu::decode::decode_op_sub(),
        Instruction::MUL(_, _) => alu::decode::decode_op_mul(),
        Instruction::DIV(_, _) => alu::decode::decode_op_div(),
        Instruction::MOD(_, _) => alu::decode::decode_op_mod(),
        Instruction::AND(_, _) => alu::decode::decode_op_and(),
        Instruction::OR(_, _) => alu::decode::decode_op_or(),
        Instruction::XOR(_, _) => alu::decode::decode_op_xor(),
        Instruction::NOT(_) => alu::decode::decode_op_not(),
        Instruction::INC(_) => alu::decode::decode_op_inc(),
        Instruction::DEC(_) => alu::decode::decode_op_dec(),
        Instruction::SLL(_, _, shift) => alu::decode::decode_op_sll(shift),
        Instruction::SLC(_, _, shift) => alu::decode::decode_op_slc(shift),
        Instruction::SLR(_, _, shift) => alu::decode::decode_op_slr(shift),
        Instruction::SRC(_, _, shift) => alu::decode::decode_op_src(shift),
        Instruction::ROL(_, _, shift) => alu::decode::decode_op_rol(shift),
        Instruction::ROR(_, _, shift) => alu::decode::decode_op_ror(shift),
        Instruction::RCY(_, _) => mmu::decode::decode_op_rcy(),
        Instruction::RMV(_, _) => mmu::decode::decode_op_rmv(),
        Instruction::LDR(target, source) => mmu::decode::decode_op_ldr(target, source),
        Instruction::LDO(_, source, _) => mmu::decode::decode_op_ldo(source),
        Instruction::LDOI(_, source, _) => mmu::decode::decode_op_ldoi(source),
        Instruction::STM(_, source) => mmu::decode::decode_op_stm(source),
        Instruction::STMO(_, source, _) => mmu::decode::decode_op_stmo(source),
        Instruction::SMOI(_, source, _) => mmu::decode::decode_op_smoi(source),
        Instruction::DPW(target, value) => io_matrix::decode::decode_op_dpw(target, value),
        Instruction::DPR(_, source) => io_matrix::decode::decode_op_dpr(source),
        Instruction::DPWW(value) => io_matrix::decode::decode_op_dpww(value),
        Instruction::DPRW(_) => io_matrix::decode::decode_op_dprw(),
        Instruction::APW(target, source) => io_matrix::decode::decode_op_apw(target, source),
        Instruction::APR(_, source) => io_matrix::decode::decode_op_apr(source),
        Instruction::NOP => TPU::decode_op_nop(),
        Instruction::SLP(_) => TPU::decode_op_slp(),
        Instruction::WRX => TPU::decode_op_wrx(),
        Instruction::HLT => TPU::decode_op_hlt(),
        Instruction::JMP(target) => flow::decode::decode_op_jmp(target),
        Instruction::BEZ(_, _) => flow::decode::decode_op_bez(),
        Instruction::BNZ(_, _) => flow::decode::decode_op_bnz(),
        Instruction::BEQ(_, _, _) => flow::decode::decode_op_beq(),
        Instruction::BNE(_, _, _) => flow::decode::decode_op_bne(),
        Instruction::BGE(_, _, _) => flow::decode::decode_op_bge(),
        Instruction::BLE(_, _, _) => flow::decode::decode_op_ble(),
        Instruction::BGT(_, _, _) => flow::decode::decode_op_bgt(),
        Instruction::BLT(_, _, _) => flow::decode::decode_op_blt(),
        Instruction::JPR(target) => flow::decode::decode_op_jpr(target),
        Instruction::BREZ(_, _) => flow::decode::decode_op_brez(),
        Instruction::BRNZ(_, _) => flow::decode::decode_op_brnz(),
        Instruction::BREQ(_, _, _) => flow::decode::decode_op_breq(),
        Instruction::BRNE(_, _, _) => flow::decode::decode_op_brne(),
        Instruction::BRGE(_, _, _) => flow::decode::decode_op_brge(),
        Instruction::BRLE(_, _, _) => flow::decode::decode_op_brle(),
        Instruction::BRGT(_, _, _) => flow::decode::decode_op_brgt(),
        Instruction::BRLT(_, _, _) => flow::decode::decode_op_brlt(),
        Instruction::JSR(target) => flow::decode::decode_op_jsr(target),
        Instruction::RTS => flow::decode::decode_op_rts(),
    }
}

} // verus!
