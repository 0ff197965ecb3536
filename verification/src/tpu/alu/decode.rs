//! Cycle costs of the arithmetic, logic, shift and rotate instructions.
use crate::shared::{DecodeResult, OperandValueType};
use crate::tpu::model::{lemma_operand_cost_one, surcharge};
use crate::tpu::TPU;
use vstd::prelude::*;

verus! {

/// `INC` takes 2 cycles.
pub fn decode_op_inc() -> (result: DecodeResult)
    ensures
        result == (DecodeResult { cycles: 2, call_every_cycle: false }),
{
    DecodeResult { cycles: 2, call_every_cycle: false }
}

/// `DEC` takes 2 cycles.
pub fn decode_op_dec() -> (result: DecodeResult)
    ensures
        result == (DecodeResult { cycles: 2, call_every_cycle: false }),
{
    DecodeResult { cycles: 2, call_every_cycle: false }
}

/// `ADD` takes 2 cycles.
pub fn decode_op_add() -> (result: DecodeResult)
    ensures
        result == (DecodeResult { cycles: 2, call_every_cycle: false }),
{
    DecodeResult { cycles: 2, call_every_cycle: false }
}

/// `SUB` takes 2 cycles.
pub fn decode_op_sub() -> (result: DecodeResult)
    ensures
        result == (DecodeResult { cycles: 2, call_every_cycle: false }),
{
    DecodeResult { cycles: 2, call_every_cycle: false }
}

/// `MUL` takes 4 cycles.
pub fn decode_op_mul() -> (result: DecodeResult)
    ensures
        result == (DecodeResult { cycles: 4, call_every_cycle: false }),
{
    DecodeResult { cycles: 4, call_every_cycle: false }
}

/// `DIV` takes 6 cycles.
pub fn decode_op_div() -> (result: DecodeResult)
    ensures
        result == (DecodeResult { cycles: 6, call_every_cycle: false }),
{
    DecodeResult { cycles: 6, call_every_cycle: false }
}

/// `MOD` takes 6 cycles.
pub fn decode_op_mod() -> (result: DecodeResult)
    ensures
        result == (DecodeResult { cycles: 6, call_every_cycle: false }),
{
    DecodeResult { cycles: 6, call_every_cycle: false }
}

/// `AND` takes 3 cycles.
pub fn decode_op_and() -> (result: DecodeResult)
    ensures
        result == (DecodeResult { cycles: 3, call_every_cycle: false }),
{
    DecodeResult { cycles: 3, call_every_cycle: false }
}

/// `OR` takes 3 cycles.
pub fn decode_op_or() -> (result: DecodeResult)
    ensures
        result == (DecodeResult { cycles: 3, call_every_cycle: false }),
{
    DecodeResult { cycles: 3, call_every_cycle: false }
}

/// `XOR` takes 3 cycles.
pub fn decode_op_xor() -> (result: DecodeResult)
    ensures
        result == (DecodeResult { cycles: 3, call_every_cycle: false }),
{
    DecodeResult { cycles: 3, call_every_cycle: false }
}

/// `NOT` takes 3 cycles.
pub fn decode_op_not() -> (result: DecodeResult)
    ensures
        result == (DecodeResult { cycles: 3, call_every_cycle: false }),
{
    DecodeResult { cycles: 3, call_every_cycle: false }
}

/// `SLL` takes 2 cycles, and one more if the shift count is in a register.
pub fn decode_op_sll(shift: &OperandValueType) -> (result: DecodeResult)
    ensures
        result == (DecodeResult {
            cycles: (2 + surcharge(*shift)) as u16,
            call_every_cycle: false,
        }),
{
    let operands = [shift];
    proof {
        assert(operands@ =~= seq![shift]);
        lemma_operand_cost_one(shift);
    }
    let cost = TPU::check_operand_cost(&operands);
    DecodeResult { cycles: cost + 2, call_every_cycle: false }
}

/// `SLC` takes 2 cycles, and one more if the shift count is in a register.
pub fn decode_op_slc(shift: &OperandValueType) -> (result: DecodeResult)
    ensures
        result == (DecodeResult {
            cycles: (2 + surcharge(*shift)) as u16,
            call_every_cycle: false,
        }),
{
    let operands = [shift];
    proof {
        assert(operands@ =~= seq![shift]);
        lemma_operand_cost_one(shift);
    }
    let cost = TPU::check_operand_cost(&operands);
    DecodeResult { cycles: cost + 2, call_every_cycle: false }
}

/// A shift into the accumulator takes 2 cycles, and one more if the shift count is in a register.
pub fn decode_op_shla(shift: &OperandValueType) -> (result: DecodeResult)
    ensures
        result == (DecodeResult {
            cycles: (2 + surcharge(*shift)) as u16,
            call_every_cycle: false,
        }),
{
    let operands = [shift];
    proof {
        assert(operands@ =~= seq![shift]);
        lemma_operand_cost_one(shift);
    }
    let cost = TPU::check_operand_cost(&operands);
    DecodeResult { cycles: cost + 2, call_every_cycle: false }
}

/// `SLR` takes 2 cycles, and one more if the shift count is in a register.
pub fn decode_op_slr(shift: &OperandValueType) -> (result: DecodeResult)
    ensures
        result == (DecodeResult {
            cycles: (2 + surcharge(*shift)) as u16,
            call_every_cycle: false,
        }),
{
    let operands = [shift];
    proof {
        assert(operands@ =~= seq![shift]);
        lemma_operand_cost_one(shift);
    }
    let cost = TPU::check_operand_cost(&operands);
    DecodeResult { cycles: cost + 2, call_every_cycle: false }
}

/// `SRC` takes 2 cycles, and one more if the shift count is in a register.
pub fn decode_op_src(shift: &OperandValueType) -> (result: DecodeResult)
    ensures
        result == (DecodeResult {
            cycles: (2 + surcharge(*shift)) as u16,
            call_every_cycle: false,
        }),
{
    let operands = [shift];
    proof {
        assert(operands@ =~= seq![shift]);
        lemma_operand_cost_one(shift);
    }
    let cost = TPU::check_operand_cost(&operands);
    DecodeResult { cycles: cost + 2, call_every_cycle: false }
}

/// A shift into the accumulator takes 2 cycles, and one more if the shift count is in a register.
pub fn decode_op_shra(shift: &OperandValueType) -> (result: DecodeResult)
    ensures
        result == (DecodeResult {
            cycles: (2 + surcharge(*shift)) as u16,
            call_every_cycle: false,
        }),
{
    let operands = [shift];
    proof {
        assert(operands@ =~= seq![shift]);
        lemma_operand_cost_one(shift);
    }
    let cost = TPU::check_operand_cost(&operands);
    DecodeResult { cycles: cost + 2, call_every_cycle: false }
}

/// `ROL` takes 2 cycles, and one more if the shift count is in a register.
pub fn decode_op_rol(shift: &OperandValueType) -> (result: DecodeResult)
    ensures
        result == (DecodeResult {
            cycles: (2 + surcharge(*shift)) as u16,
            call_every_cycle: false,
        }),
{
    let operands = [shift];
    proof {
        assert(operands@ =~= seq![shift]);
        lemma_operand_cost_one(shift);
    }
    let cost = TPU::check_operand_cost(&operands);
    DecodeResult { cycles: cost + 2, call_every_cycle: false }
}

/// `ROR` takes 2 cycles, and one more if the shift count is in a register.
pub fn decode_op_ror(shift: &OperandValueType) -> (result: DecodeResult)
    ensures
        result == (DecodeResult {
            cycles: (2 + surcharge(*shift)) as u16,
            call_every_cycle: false,
        }),
{
    let operands = [shift];
    proof {
        assert(operands@ =~= seq![shift]);
        lemma_operand_cost_one(shift);
    }
    let cost = TPU::check_operand_cost(&operands);
    DecodeResult { cycles: cost + 2, call_every_cycle: false }
}

} // verus!
