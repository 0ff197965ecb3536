//! Cycle costs of the stack, register and memory instructions.
use crate::shared::{DecodeResult, OperandValueType, Register};
use crate::tpu::model::{lemma_operand_cost_one, surcharge};
use crate::tpu::TPU;
use vstd::prelude::*;

verus! {

/// `PUSH` takes 1 cycle, and one more if the operand is a register.
pub fn decode_op_push(operand: &OperandValueType) -> (result: DecodeResult)
    ensures
        result == (DecodeResult {
            cycles: (1 + surcharge(*operand)) as u16,
            call_every_cycle: false,
        }),
{
    let operands = [operand];
    proof {
        assert(operands@ =~= seq![operand]);
        lemma_operand_cost_one(operand);
    }
    let cost = TPU::check_operand_cost(&operands);
    DecodeResult { cycles: cost + 1, call_every_cycle: false }
}

/// `POP` takes 2 cycles.
pub fn decode_op_pop() -> (result: DecodeResult)
    ensures
        result == (DecodeResult { cycles: 2, call_every_cycle: false }),
{
    DecodeResult { cycles: 2, call_every_cycle: false }
}

/// `PEEK` takes 1 cycle, and one more if the index is in a register.
pub fn decode_op_peek(index: &OperandValueType) -> (result: DecodeResult)
    ensures
        result == (DecodeResult {
            cycles: (1 + surcharge(*index)) as u16,
            call_every_cycle: false,
        }),
{
    let operands = [index];
    proof {
        assert(operands@ =~= seq![index]);
        lemma_operand_cost_one(index);
    }
    let cost = TPU::check_operand_cost(&operands);
    DecodeResult { cycles: cost + 1, call_every_cycle: false }
}

/// `SCR` takes 2 cycles.
pub fn decode_op_scr() -> (result: DecodeResult)
    ensures
        result == (DecodeResult { cycles: 2, call_every_cycle: false }),
{
    DecodeResult { cycles: 2, call_every_cycle: false }
}

/// `RSP` takes 1 cycle.
pub fn decode_op_rsp() -> (result: DecodeResult)
    ensures
        result == (DecodeResult { cycles: 1, call_every_cycle: false }),
{
    DecodeResult { cycles: 1, call_every_cycle: false }
}

/// `RCY` takes 2 cycles.
pub fn decode_op_rcy() -> (result: DecodeResult)
    ensures
        result == (DecodeResult { cycles: 2, call_every_cycle: false }),
{
    DecodeResult { cycles: 2, call_every_cycle: false }
}

/// `RMV` takes 3 cycles.
pub fn decode_op_rmv() -> (result: DecodeResult)
    ensures
        result == (DecodeResult { cycles: 3, call_every_cycle: false }),
{
    DecodeResult { cycles: 3, call_every_cycle: false }
}

/// A store of a register takes 1 cycle, and one more if the address is in a register.
pub fn decode_op_str(_target: &Register, source: &OperandValueType) -> (result: DecodeResult)
    ensures
        result == (DecodeResult {
            cycles: (1 + surcharge(*source)) as u16,
            call_every_cycle: false,
        }),
{
    let operands = [source];
    proof {
        assert(operands@ =~= seq![source]);
        lemma_operand_cost_one(source);
    }
    let cost = TPU::check_operand_cost(&operands);
    DecodeResult { cycles: cost + 1, call_every_cycle: false }
}

/// `LDR` takes 1 cycle, and one more if the source is a register.
pub fn decode_op_ldr(_target: &Register, source: &OperandValueType) -> (result: DecodeResult)
    ensures
        result == (DecodeResult {
            cycles: (1 + surcharge(*source)) as u16,
            call_every_cycle: false,
        }),
{
    let operands = [source];
    proof {
        assert(operands@ =~= seq![source]);
        lemma_operand_cost_one(source);
    }
    let cost = TPU::check_operand_cost(&operands);
    DecodeResult { cycles: cost + 1, call_every_cycle: false }
}

/// `LDO` takes 2 cycles, and one more if the address is in a register.
pub fn decode_op_ldo(source: &OperandValueType) -> (result: DecodeResult)
    ensures
        result == (DecodeResult {
            cycles: (2 + surcharge(*source)) as u16,
            call_every_cycle: false,
        }),
{
    let operands = [source];
    proof {
        assert(operands@ =~= seq![source]);
        lemma_operand_cost_one(source);
    }
    let cost = TPU::check_operand_cost(&operands);
    DecodeResult { cycles: cost + 2, call_every_cycle: false }
}

/// `LDOI` takes 3 cycles, and one more if the address is in a register.
pub fn decode_op_ldoi(source: &OperandValueType) -> (result: DecodeResult)
    ensures
        result == (DecodeResult {
            cycles: (3 + surcharge(*source)) as u16,
            call_every_cycle: false,
        }),
{
    let operands = [source];
    proof {
        assert(operands@ =~= seq![source]);
        lemma_operand_cost_one(source);
    }
    let cost = TPU::check_operand_cost(&operands);
    DecodeResult { cycles: cost + 3, call_every_cycle: false }
}

/// `STM` takes 1 cycle, and one more if the source is a register.
pub fn decode_op_stm(source: &OperandValueType) -> (result: DecodeResult)
    ensures
        result == (DecodeResult {
            cycles: (1 + surcharge(*source)) as u16,
            call_every_cycle: false,
        }),
{
    let operands = [source];
    proof {
        assert(operands@ =~= seq![source]);
        lemma_operand_cost_one(source);
    }
    let cost = TPU::check_operand_cost(&operands);
    DecodeResult { cycles: cost + 1, call_every_cycle: false }
}

/// `STMO` takes 4 cycles, and one more if the source is a register.
pub fn decode_op_stmo(source: &OperandValueType) -> (result: DecodeResult)
    ensures
        result == (DecodeResult {
            cycles: (4 + surcharge(*source)) as u16,
            call_every_cycle: false,
        }),
{
    let operands = [source];
    proof {
        assert(operands@ =~= seq![source]);
        lemma_operand_cost_one(source);
    }
    let cost = TPU::check_operand_cost(&operands);
    DecodeResult { cycles: cost + 4, call_every_cycle: false }
}

/// `SMOI` takes 5 cycles, and one more if the source is a register.
pub fn decode_op_smoi(source: &OperandValueType) -> (result: DecodeResult)
    ensures
        result == (DecodeResult {
            cycles: (5 + surcharge(*source)) as u16,
            call_every_cycle: false,
        }),
{
    let operands = [source];
    proof {
        assert(operands@ =~= seq![source]);
        lemma_operand_cost_one(source);
    }
    let cost = TPU::check_operand_cost(&operands);
    DecodeResult { cycles: cost + 5, call_every_cycle: false }
}

} // verus!
