//! Cycle costs of the pin and network instructions.
use crate::shared::{DecodeResult, OperandValueType};
use crate::tpu::model::{lemma_operand_cost_one, lemma_operand_cost_two, surcharge};
use crate::tpu::TPU;
use vstd::prelude::*;

verus! {

/// `DPW` takes 4 cycles, and one more for each operand that is a register.
pub fn decode_op_dpw(target: &OperandValueType, value: &OperandValueType) -> (result: DecodeResult)
    ensures
        result == (DecodeResult {
            cycles: (4 + surcharge(*target) + surcharge(*value)) as u16,
            call_every_cycle: false,
        }),
{
    let operands = [target, value];
    proof {
        assert(operands@ =~= seq![target, value]);
        lemma_operand_cost_two(target, value);
    }
    let cost = TPU::check_operand_cost(&operands);
    DecodeResult { cycles: cost + 4, call_every_cycle: false }
}

/// `DPR` takes 2 cycles, and one more if the pin number is in a register.
pub fn decode_op_dpr(source: &OperandValueType) -> (result: DecodeResult)
    ensures
        result == (DecodeResult {
            cycles: (2 + surcharge(*source)) as u16,
            call_every_cycle: false,
        }),
{
    let operands = [source];
    proof {
        assert(operands@ =~= seq![source]);
        lemma_operand_cost_one(source);
    }
    let cost = TPU::check_operand_cost(&operands);
    DecodeResult { cycles: cost + 2, call_every_cycle: false }
}

/// `APW` takes 4 cycles, and one more for each operand that is a register.
pub fn decode_op_apw(target: &OperandValueType, value: &OperandValueType) -> (result: DecodeResult)
    ensures
        result == (DecodeResult {
            cycles: (4 + surcharge(*target) + surcharge(*value)) as u16,
            call_every_cycle: false,
        }),
{
    let operands = [target, value];
    proof {
        assert(operands@ =~= seq![target, value]);
        lemma_operand_cost_two(target, value);
    }
    let cost = TPU::check_operand_cost(&operands);
    DecodeResult { cycles: cost + 4, call_every_cycle: false }
}

/// `APR` takes 4 cycles, and one more if the pin number is in a register.
pub fn decode_op_apr(source: &OperandValueType) -> (result: DecodeResult)
    ensures
        result == (DecodeResult {
            cycles: (4 + surcharge(*source)) as u16,
            call_every_cycle: false,
        }),
{
    let operands = [source];
    proof {
        assert(operands@ =~= seq![source]);
        lemma_operand_cost_one(source);
    }
    let cost = TPU::check_operand_cost(&operands);
    DecodeResult { cycles: cost + 4, call_every_cycle: false }
}

/// `XMIT` takes 10 cycles.
pub fn decode_op_xmit() -> (result: DecodeResult)
    ensures
        result == (DecodeResult { cycles: 10, call_every_cycle: false }),
{
    DecodeResult { cycles: 10, call_every_cycle: false }
}

/// `RECV` takes 10 cycles.
pub fn decode_op_recv() -> (result: DecodeResult)
    ensures
        result == (DecodeResult { cycles: 10, call_every_cycle: false }),
{
    DecodeResult { cycles: 10, call_every_cycle: false }
}

/// `TXBS` takes 2 cycles.
pub fn decode_op_txbs() -> (result: DecodeResult)
    ensures
        result == (DecodeResult { cycles: 2, call_every_cycle: false }),
{
    DecodeResult { cycles: 2, call_every_cycle: false }
}

/// `RXBS` takes 2 cycles.
pub fn decode_op_rxbs() -> (result: DecodeResult)
    ensures
        result == (DecodeResult { cycles: 2, call_every_cycle: false }),
{
    DecodeResult { cycles: 2, call_every_cycle: false }
}

/// `DPWW` takes 4 cycles, and one more if the value is in a register.
pub fn decode_op_dpww(value: &OperandValueType) -> (result: DecodeResult)
    ensures
        result == (DecodeResult {
            cycles: (4 + surcharge(*value)) as u16,
            call_every_cycle: false,
        }),
{
    let operands = [value];
    proof {
        assert(operands@ =~= seq![value]);
        lemma_operand_cost_one(value);
    }
    let cost = TPU::check_operand_cost(&operands);
    DecodeResult { cycles: cost + 4, call_every_cycle: false }
}

/// `DPRW` takes 1 cycle.
pub fn decode_op_dprw() -> (result: DecodeResult)
    ensures
        result == (DecodeResult { cycles: 1, call_every_cycle: false }),
{
    DecodeResult { cycles: 1, call_every_cycle: false }
}

} // verus!
