//! Cycle costs of the jumps, branches and subroutine instructions. All of them
//! run on every cycle while they are in flight.
use crate::shared::{DecodeResult, OperandValueType};
use crate::tpu::model::{lemma_operand_cost_one, surcharge};
use crate::tpu::TPU;
use vstd::prelude::*;

verus! {

/// `JMP` takes 1 cycle, and one more if the address is in a register.
pub fn decode_op_jmp(target: &OperandValueType) -> (result: DecodeResult)
    ensures
        result == (DecodeResult {
            cycles: (1 + surcharge(*target)) as u16,
            call_every_cycle: true,
        }),
{
    let operands = [target];
    proof {
        assert(operands@ =~= seq![target]);
        lemma_operand_cost_one(target);
    }
    let cost = TPU::check_operand_cost(&operands);
    DecodeResult { cycles: cost + 1, call_every_cycle: true }
}

/// `BEZ` takes 3 cycles.
pub fn decode_op_bez() -> (result: DecodeResult)
    ensures
        result == (DecodeResult { cycles: 3, call_every_cycle: true }),
{
    DecodeResult { cycles: 3, call_every_cycle: true }
}

/// `BNZ` takes 3 cycles.
pub fn decode_op_bnz() -> (result: DecodeResult)
    ensures
        result == (DecodeResult { cycles: 3, call_every_cycle: true }),
{
    DecodeResult { cycles: 3, call_every_cycle: true }
}

/// `BEQ` takes 3 cycles.
pub fn decode_op_beq() -> (result: DecodeResult)
    ensures
        result == (DecodeResult { cycles: 3, call_every_cycle: true }),
{
    DecodeResult { cycles: 3, call_every_cycle: true }
}

/// `BNE` takes 3 cycles.
pub fn decode_op_bne() -> (result: DecodeResult)
    ensures
        result == (DecodeResult { cycles: 3, call_every_cycle: true }),
{
    DecodeResult { cycles: 3, call_every_cycle: true }
}

/// `BGE` takes 3 cycles.
pub fn decode_op_bge() -> (result: DecodeResult)
    ensures
        result == (DecodeResult { cycles: 3, call_every_cycle: true }),
{
    DecodeResult { cycles: 3, call_every_cycle: true }
}

/// `BLE` takes 3 cycles.
pub fn decode_op_ble() -> (result: DecodeResult)
    ensures
        result == (DecodeResult { cycles: 3, call_every_cycle: true }),
{
    DecodeResult { cycles: 3, call_every_cycle: true }
}

/// `BGT` takes 3 cycles.
pub fn decode_op_bgt() -> (result: DecodeResult)
    ensures
        result == (DecodeResult { cycles: 3, call_every_cycle: true }),
{
    DecodeResult { cycles: 3, call_every_cycle: true }
}

/// `BLT` takes 3 cycles.
pub fn decode_op_blt() -> (result: DecodeResult)
    ensures
        result == (DecodeResult { cycles: 3, call_every_cycle: true }),
{
    DecodeResult { cycles: 3, call_every_cycle: true }
}

/// `JPR` takes 1 cycle, and one more if the offset is in a register.
pub fn decode_op_jpr(target: &OperandValueType) -> (result: DecodeResult)
    ensures
        result == (DecodeResult {
            cycles: (1 + surcharge(*target)) as u16,
            call_every_cycle: true,
        }),
{
    let operands = [target];
    proof {
        assert(operands@ =~= seq![target]);
        lemma_operand_cost_one(target);
    }
    let cost = TPU::check_operand_cost(&operands);
    DecodeResult { cycles: cost + 1, call_every_cycle: true }
}

/// `BREZ` takes 3 cycles.
pub fn decode_op_brez() -> (result: DecodeResult)
    ensures
        result == (DecodeResult { cycles: 3, call_every_cycle: true }),
{
    DecodeResult { cycles: 3, call_every_cycle: true }
}

/// `BRNZ` takes 3 cycles.
pub fn decode_op_brnz() -> (result: DecodeResult)
    ensures
        result == (DecodeResult { cycles: 3, call_every_cycle: true }),
{
    DecodeResult { cycles: 3, call_every_cycle: true }
}

/// `BREQ` takes 3 cycles.
pub fn decode_op_breq() -> (result: DecodeResult)
    ensures
        result == (DecodeResult { cycles: 3, call_every_cycle: true }),
{
    DecodeResult { cycles: 3, call_every_cycle: true }
}

/// `BRNE` takes 3 cycles.
pub fn decode_op_brne() -> (result: DecodeResult)
    ensures
        result == (DecodeResult { cycles: 3, call_every_cycle: true }),
{
    DecodeResult { cycles: 3, call_every_cycle: true }
}

/// `BRGE` takes 3 cycles.
pub fn decode_op_brge() -> (result: DecodeResult)
    ensures
        result == (DecodeResult { cycles: 3, call_every_cycle: true }),
{
    DecodeResult { cycles: 3, call_every_cycle: true }
}

/// `BRLE` takes 3 cycles.
pub fn decode_op_brle() -> (result: DecodeResult)
    ensures
        result == (DecodeResult { cycles: 3, call_every_cycle: true }),
{
    DecodeResult { cycles: 3, call_every_cycle: true }
}

/// `BRGT` takes 3 cycles.
pub fn decode_op_brgt() -> (result: DecodeResult)
    ensures
        result == (DecodeResult { cycles: 3, call_every_cycle: true }),
{
    DecodeResult { cycles: 3, call_every_cycle: true }
}

/// `BRLT` takes 3 cycles.
pub fn decode_op_brlt() -> (result: DecodeResult)
    ensures
        result == (DecodeResult { cycles: 3, call_every_cycle: true }),
{
    DecodeResult { cycles: 3, call_every_cycle: true }
}

/// `JSR` takes 4 cycles, and one more if the address is in a register.
pub fn decode_op_jsr(target: &OperandValueType) -> (result: DecodeResult)
    ensures
        result == (DecodeResult {
            cycles: (4 + surcharge(*target)) as u16,
            call_every_cycle: true,
        }),
{
    let operands = [target];
    proof {
        assert(operands@ =~= seq![target]);
        lemma_operand_cost_one(target);
    }
    let cost = TPU::check_operand_cost(&operands);
    DecodeResult { cycles: cost + 4, call_every_cycle: true }
}

/// `RTS` takes 2 cycles.
pub fn decode_op_rts() -> (result: DecodeResult)
    ensures
        result == (DecodeResult { cycles: 2, call_every_cycle: true }),
{
    DecodeResult { cycles: 2, call_every_cycle: true }
}

} // verus!
