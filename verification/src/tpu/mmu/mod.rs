//! Stack, register transfer and memory instructions.
pub mod decode;

use crate::shared::{ExecuteResult, HaltReason, OperandValueType, Register};
use crate::tpu::model::{wrap16, TpuModel};
use crate::tpu::TPU;
use vstd::prelude::*;

verus! {

/// The state after a load with offset: the target register holds the memory
/// word at the address plus what the offset register holds.
pub open spec fn load_offset(
    m: TpuModel,
    target: Register,
    source: OperandValueType,
    offset: Register,
) -> TpuModel {
    m.set_reg(target, m.read_ram(m.operand(source) + m.reg(offset)))
}

/// The state after a store with offset: the memory word at the address plus
/// what the offset register holds is the source value.
pub open spec fn store_offset(
    m: TpuModel,
    target: OperandValueType,
    source: OperandValueType,
    offset: Register,
) -> TpuModel {
    m.write_ram(m.operand(target) + m.reg(offset), m.operand(source))
}

/// The state with one more in register `r`, wrapping.
pub open spec fn increment(m: TpuModel, r: Register) -> TpuModel {
    m.set_reg(r, wrap16(m.reg(r) + 1))
}

/// `PUSH`: put the operand on the stack. A full stack halts the machine and
/// changes nothing.
pub fn op_push(tpu: &mut TPU, operand: &OperandValueType) -> (result: ExecuteResult)
    ensures
        old(tpu)@.stack.len() >= TPU::STACK_SIZE ==> result == ExecuteResult::Halt(
            HaltReason::StackOverflow,
        ) && final(tpu)@ == old(tpu)@,
        old(tpu)@.stack.len() < TPU::STACK_SIZE ==> result == ExecuteResult::PCAdvance
            && final(tpu)@ == old(tpu)@.push(old(tpu)@.operand(*operand)),
{
    if tpu.tpu_state.stack.len() >= TPU::STACK_SIZE {
        return ExecuteResult::Halt(HaltReason::StackOverflow);
    }
    let value = tpu.get_operand_value(operand);
    tpu.push(value);
    ExecuteResult::PCAdvance
}

/// `POP`: take the top of the stack into the register; 0 if the stack is empty.
pub fn op_pop(tpu: &mut TPU, operand: &Register) -> (result: ExecuteResult)
    ensures
        result == ExecuteResult::PCAdvance,
        final(tpu)@ == old(tpu)@.pop().set_reg(*operand, old(tpu)@.top()),
{
    let value = tpu.pop();
    tpu.write_register(*operand, value);
    ExecuteResult::PCAdvance
}

/// `PEEK`: copy the stack slot with the given index, counted from the
/// bottom, into the register. An index at or above the depth halts the
/// machine and changes nothing.
pub fn op_peek(
    tpu: &mut TPU,
    operand_1: &Register,
    operand_2: &OperandValueType,
) -> (result: ExecuteResult)
    ensures
        old(tpu)@.operand(*operand_2) >= old(tpu)@.stack.len() ==> result == ExecuteResult::Halt(
            HaltReason::IndexOutOfRange,
        ) && final(tpu)@ == old(tpu)@,
        old(tpu)@.operand(*operand_2) < old(tpu)@.stack.len() ==> result
            == ExecuteResult::PCAdvance && final(tpu)@ == old(tpu)@.set_reg(
            *operand_1,
            old(tpu)@.stack[old(tpu)@.operand(*operand_2) as int],
        ),
{
    let index = tpu.get_operand_value(operand_2) as usize;
    if index >= tpu.tpu_state.stack.len() {
        return ExecuteResult::Halt(HaltReason::IndexOutOfRange);
    }
    let value = tpu.tpu_state.stack[index];
    tpu.write_register(*operand_1, value);
    ExecuteResult::PCAdvance
}

/// `SCR`: clear the stack.
pub fn op_scr(tpu: &mut TPU) -> (result: ExecuteResult)
    ensures
        result == ExecuteResult::PCAdvance,
        final(tpu)@ == (TpuModel { stack: Seq::empty(), ..old(tpu)@ }),
{
    tpu.tpu_state.stack.clear();
    ExecuteResult::PCAdvance
}

/// `RSP`: the stack depth into the register.
pub fn op_rsp(tpu: &mut TPU, operand: &Register) -> (result: ExecuteResult)
    ensures
        result == ExecuteResult::PCAdvance,
        final(tpu)@ == old(tpu)@.set_reg(*operand, wrap16(old(tpu)@.stack.len() as int)),
{
    let depth = tpu.stack_pointer();
    tpu.write_register(*operand, depth);
    ExecuteResult::PCAdvance
}

/// `RCY`: copy the second register into the first.
pub fn op_rcy(tpu: &mut TPU, operand_1: &Register, operand_2: &Register) -> (result: ExecuteResult)
    ensures
        result == ExecuteResult::PCAdvance,
        final(tpu)@ == old(tpu)@.set_reg(*operand_1, old(tpu)@.reg(*operand_2)),
{
    let value = tpu.read_register(*operand_2);
    tpu.write_register(*operand_1, value);
    ExecuteResult::PCAdvance
}

/// `RMV`: copy the second register into the first, then clear the second.
pub fn op_rmv(tpu: &mut TPU, operand_1: &Register, operand_2: &Register) -> (result: ExecuteResult)
    ensures
        result == ExecuteResult::PCAdvance,
        final(tpu)@ == old(tpu)@.set_reg(*operand_1, old(tpu)@.reg(*operand_2)).set_reg(
            *operand_2,
            0,
        ),
{
    let value = tpu.read_register(*operand_2);
    tpu.write_register(*operand_1, value);
    tpu.write_register(*operand_2, 0);
    ExecuteResult::PCAdvance
}

/// Store a register to memory at the address that the operand gives.
pub fn op_str(tpu: &mut TPU, target: &OperandValueType, source: Register) -> (result: ExecuteResult)
    ensures
        result == ExecuteResult::PCAdvance,
        final(tpu)@ == old(tpu)@.write_ram(
            old(tpu)@.operand(*target) as int,
            old(tpu)@.reg(source),
        ),
{
    let address = tpu.get_operand_value(target) as usize;
    let value = tpu.read_register(source);
    tpu.write_ram(address, value);
    ExecuteResult::PCAdvance
}

/// `LDR`: the operand's value into the register.
pub fn op_ldr(
    tpu: &mut TPU,
    target: &Register,
    source: &OperandValueType,
) -> (result: ExecuteResult)
    ensures
        result == ExecuteResult::PCAdvance,
        final(tpu)@ == old(tpu)@.set_reg(*target, old(tpu)@.operand(*source)),
{
    let value = tpu.get_operand_value(source);
    tpu.write_register(*target, value);
    ExecuteResult::PCAdvance
}

/// Load a register from memory: the memory word at the address that the
/// operand gives into the register; 0 if the address is outside the memory.
pub fn op_ldm(
    tpu: &mut TPU,
    target: &Register,
    source: &OperandValueType,
) -> (result: ExecuteResult)
    ensures
        result == ExecuteResult::PCAdvance,
        final(tpu)@ == old(tpu)@.set_reg(
            *target,
            old(tpu)@.read_ram(old(tpu)@.operand(*source) as int),
        ),
{
    let address = tpu.get_operand_value(source) as usize;
    let value = tpu.read_ram(address);
    tpu.write_register(*target, value);
    ExecuteResult::PCAdvance
}

/// `LDO`: the memory word at address plus offset register into the target
/// register; 0 if that is outside the memory.
pub fn op_ldo(
    tpu: &mut TPU,
    target: &Register,
    source: &OperandValueType,
    offset: &Register,
) -> (result: ExecuteResult)
    ensures
        result == ExecuteResult::PCAdvance,
        final(tpu)@ == load_offset(old(tpu)@, *target, *source, *offset),
{
    let address = tpu.get_operand_value(source) as usize;
    let offset_amount = tpu.read_register(*offset) as usize;
    let value = tpu.read_ram(address + offset_amount);
    tpu.write_register(*target, value);
    ExecuteResult::PCAdvance
}

/// `LDOI`: as `LDO`, then add one to the offset register.
pub fn op_ldoi(
    tpu: &mut TPU,
    target: &Register,
    source: &OperandValueType,
    offset: &Register,
) -> (result: ExecuteResult)
    ensures
        result == ExecuteResult::PCAdvance,
        final(tpu)@ == increment(load_offset(old(tpu)@, *target, *source, *offset), *offset),
{
    op_ldo(tpu, target, source, offset);
    let next = tpu.read_register(*offset).wrapping_add(1);
    tpu.write_register(*offset, next);
    ExecuteResult::PCAdvance
}

/// `STM`: the source value into the memory word at the address; nothing if
/// the address is outside the memory.
pub fn op_stm(
    tpu: &mut TPU,
    target: &OperandValueType,
    source: &OperandValueType,
) -> (result: ExecuteResult)
    ensures
        result == ExecuteResult::PCAdvance,
        final(tpu)@ == old(tpu)@.write_ram(
            old(tpu)@.operand(*target) as int,
            old(tpu)@.operand(*source),
        ),
{
    let address = tpu.get_operand_value(target) as usize;
    let value = tpu.get_operand_value(source);
    tpu.write_ram(address, value);
    ExecuteResult::PCAdvance
}

/// `STMO`: the source value into the memory word at address plus offset
/// register; nothing if that is outside the memory.
pub fn op_stmo(
    tpu: &mut TPU,
    target: &OperandValueType,
    source: &OperandValueType,
    offset: &Register,
) -> (result: ExecuteResult)
    ensures
        result == ExecuteResult::PCAdvance,
        final(tpu)@ == store_offset(old(tpu)@, *target, *source, *offset),
{
    let address = tpu.get_operand_value(target) as usize;
    let value = tpu.get_operand_value(source);
    let offset_amount = tpu.read_register(*offset) as usize;
    tpu.write_ram(address + offset_amount, value);
    ExecuteResult::PCAdvance
}

/// `SMOI`: as `STMO`, then add one to the offset register.
pub fn op_smoi(
    tpu: &mut TPU,
    target: &OperandValueType,
    source: &OperandValueType,
    offset: &Register,
) -> (result: ExecuteResult)
    ensures
        result == ExecuteResult::PCAdvance,
        final(tpu)@ == increment(store_offset(old(tpu)@, *target, *source, *offset), *offset),
{
    op_stmo(tpu, target, source, offset);
    let next = tpu.read_register(*offset).wrapping_add(1);
    tpu.write_register(*offset, next);
    ExecuteResult::PCAdvance
}

} // verus!
