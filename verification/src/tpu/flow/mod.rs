//! Jumps, branches and subroutines. Targets are indices into the program.
pub mod decode;

use crate::shared::{ExecuteResult, HaltReason, OperandValueType, Register};
use crate::tpu::model::{wrap16, TpuModel};
use crate::tpu::TPU;
use vstd::prelude::*;

verus! {

/// Where a branch goes: to `address` if it is taken, else to the next word.
pub open spec fn branch_target(m: TpuModel, condition: bool, address: int) -> int {
    if condition {
        address
    } else {
        m.program_counter + 1
    }
}

/// State and outcome of a move of the program counter to `target`: a target
/// outside the program halts the machine and leaves the counter.
pub open spec fn jump(m: TpuModel, target: int) -> (TpuModel, ExecuteResult) {
    if 0 <= target < m.rom.len() {
        (m.set_pc(target), ExecuteResult::PCModified)
    } else {
        (m, ExecuteResult::Halt(HaltReason::InvalidPC))
    }
}

/// State and outcome of a branch to `address` under `condition`.
pub open spec fn branch(m: TpuModel, condition: bool, address: int) -> (TpuModel, ExecuteResult) {
    jump(m, branch_target(m, condition, address))
}

/// The target of a relative branch: the program counter plus the operand.
pub open spec fn relative(m: TpuModel, offset: OperandValueType) -> int {
    m.program_counter + m.operand(offset)
}

/// State and outcome of a subroutine call to `address`: a full stack halts
/// the machine, and so does a target outside the program; neither pushes.
/// Otherwise the program counter, modulo 2^16, is pushed and the counter
/// moves to the target.
pub open spec fn call(m: TpuModel, address: int) -> (TpuModel, ExecuteResult) {
    if m.stack.len() >= TPU::STACK_SIZE {
        (m, ExecuteResult::Halt(HaltReason::StackOverflow))
    } else if 0 <= address < m.rom.len() {
        (m.set_pc(address).push(wrap16(m.program_counter)), ExecuteResult::PCModified)
    } else {
        (m, ExecuteResult::Halt(HaltReason::InvalidPC))
    }
}

/// Move the program counter to `address` if `condition` holds, else to the
/// next word. A target outside the program halts the machine and leaves the
/// counter where it is.
pub fn set_program_counter_conditionally(
    tpu: &mut TPU,
    condition: bool,
    address: usize,
) -> (result: ExecuteResult)
    ensures
        (final(tpu)@, result) == branch(old(tpu)@, condition, address as int),
{
    let length = tpu.tpu_state.rom.len();
    let target = if condition {
        address
    } else {
        match tpu.tpu_state.program_counter.checked_add(1) {
            Some(next) => next,
            None => return ExecuteResult::Halt(HaltReason::InvalidPC),
        }
    };
    if target >= length {
        return ExecuteResult::Halt(HaltReason::InvalidPC);
    }
    tpu.tpu_state.program_counter = target;
    ExecuteResult::PCModified
}

/// Branch under `condition` to the program counter plus `offset`.
fn branch_relative(tpu: &mut TPU, condition: bool, offset: u16) -> (result: ExecuteResult)
    ensures
        (final(tpu)@, result) == branch(
            old(tpu)@,
            condition,
            old(tpu)@.program_counter + offset,
        ),
{
    let length = tpu.tpu_state.rom.len();
    match tpu.tpu_state.program_counter.checked_add(offset as usize) {
        Some(new_pc) => set_program_counter_conditionally(tpu, condition, new_pc),
        None => {
            if condition {
                ExecuteResult::Halt(HaltReason::InvalidPC)
            } else {
                set_program_counter_conditionally(tpu, false, 0)
            }
        },
    }
}

/// `JMP`: jump to the address.
pub fn op_jmp(tpu: &mut TPU, target: &OperandValueType) -> (result: ExecuteResult)
    ensures
        (final(tpu)@, result) == jump(old(tpu)@, old(tpu)@.operand(*target) as int),
{
    let address = tpu.get_operand_value(target) as usize;
    set_program_counter_conditionally(tpu, true, address)
}

/// `BEZ`: branch to the address if the register is zero.
pub fn op_bez(
    tpu: &mut TPU,
    target: &OperandValueType,
    source: &Register,
) -> (result: ExecuteResult)
    ensures
        (final(tpu)@, result) == branch(
            old(tpu)@,
            old(tpu)@.reg(*source) == 0,
            old(tpu)@.operand(*target) as int,
        ),
{
    let address = tpu.get_operand_value(target) as usize;
    let value = tpu.read_register(*source);
    set_program_counter_conditionally(tpu, value == 0, address)
}

/// `BNZ`: branch to the address if the register is not zero.
pub fn op_bnz(
    tpu: &mut TPU,
    target: &OperandValueType,
    source: &Register,
) -> (result: ExecuteResult)
    ensures
        (final(tpu)@, result) == branch(
            old(tpu)@,
            old(tpu)@.reg(*source) != 0,
            old(tpu)@.operand(*target) as int,
        ),
{
    let address = tpu.get_operand_value(target) as usize;
    let value = tpu.read_register(*source);
    set_program_counter_conditionally(tpu, value != 0, address)
}

/// `BEQ`: branch to the address if the register equals the value.
pub fn op_beq(
    tpu: &mut TPU,
    target: &OperandValueType,
    source: &Register,
    value: &OperandValueType,
) -> (result: ExecuteResult)
    ensures
        (final(tpu)@, result) == branch(
            old(tpu)@,
            old(tpu)@.reg(*source) == old(tpu)@.operand(*value),
            old(tpu)@.operand(*target) as int,
        ),
{
    let address = tpu.get_operand_value(target) as usize;
    let a = tpu.read_register(*source);
    let b = tpu.get_operand_value(value);
    set_program_counter_conditionally(tpu, a == b, address)
}

/// `BNE`: branch to the address if the register differs from the value.
pub fn op_bne(
    tpu: &mut TPU,
    target: &OperandValueType,
    source: &Register,
    value: &OperandValueType,
) -> (result: ExecuteResult)
    ensures
        (final(tpu)@, result) == branch(
            old(tpu)@,
            old(tpu)@.reg(*source) != old(tpu)@.operand(*value),
            old(tpu)@.operand(*target) as int,
        ),
{
    let address = tpu.get_operand_value(target) as usize;
    let a = tpu.read_register(*source);
    let b = tpu.get_operand_value(value);
    set_program_counter_conditionally(tpu, a != b, address)
}

/// `BGE`: branch to the address if the register is at least the value, unsigned.
pub fn op_bge(
    tpu: &mut TPU,
    target: &OperandValueType,
    source: &Register,
    value: &OperandValueType,
) -> (result: ExecuteResult)
    ensures
        (final(tpu)@, result) == branch(
            old(tpu)@,
            old(tpu)@.reg(*source) >= old(tpu)@.operand(*value),
            old(tpu)@.operand(*target) as int,
        ),
{
    let address = tpu.get_operand_value(target) as usize;
    let a = tpu.read_register(*source);
    let b = tpu.get_operand_value(value);
    set_program_counter_conditionally(tpu, a >= b, address)
}

/// `BLE`: branch to the address if the register is at most the value, unsigned.
pub fn op_ble(
    tpu: &mut TPU,
    target: &OperandValueType,
    source: &Register,
    value: &OperandValueType,
) -> (result: ExecuteResult)
    ensures
        (final(tpu)@, result) == branch(
            old(tpu)@,
            old(tpu)@.reg(*source) <= old(tpu)@.operand(*value),
            old(tpu)@.operand(*target) as int,
        ),
{
    let address = tpu.get_operand_value(target) as usize;
    let a = tpu.read_register(*source);
    let b = tpu.get_operand_value(value);
    set_program_counter_conditionally(tpu, a <= b, address)
}

/// `BGT`: branch to the address if the register is above the value, unsigned.
pub fn op_bgt(
    tpu: &mut TPU,
    target: &OperandValueType,
    source: &Register,
    value: &OperandValueType,
) -> (result: ExecuteResult)
    ensures
        (final(tpu)@, result) == branch(
            old(tpu)@,
            old(tpu)@.reg(*source) > old(tpu)@.operand(*value),
            old(tpu)@.operand(*target) as int,
        ),
{
    let address = tpu.get_operand_value(target) as usize;
    let a = tpu.read_register(*source);
    let b = tpu.get_operand_value(value);
    set_program_counter_conditionally(tpu, a > b, address)
}

/// `BLT`: branch to the address if the register is below the value, unsigned.
pub fn op_blt(
    tpu: &mut TPU,
    target: &OperandValueType,
    source: &Register,
    value: &OperandValueType,
) -> (result: ExecuteResult)
    ensures
        (final(tpu)@, result) == branch(
            old(tpu)@,
            old(tpu)@.reg(*source) < old(tpu)@.operand(*value),
            old(tpu)@.operand(*target) as int,
        ),
{
    let address = tpu.get_operand_value(target) as usize;
    let a = tpu.read_register(*source);
    let b = tpu.get_operand_value(value);
    set_program_counter_conditionally(tpu, a < b, address)
}

/// `JPR`: jump forward by the offset.
pub fn op_jpr(tpu: &mut TPU, target: &OperandValueType) -> (result: ExecuteResult)
    ensures
        (final(tpu)@, result) == jump(old(tpu)@, relative(old(tpu)@, *target)),
{
    let offset = tpu.get_operand_value(target);
    branch_relative(tpu, true, offset)
}

/// `BREZ`: branch forward by the offset if the register is zero.
pub fn op_brez(
    tpu: &mut TPU,
    target: &OperandValueType,
    source: &Register,
) -> (result: ExecuteResult)
    ensures
        (final(tpu)@, result) == branch(
            old(tpu)@,
            old(tpu)@.reg(*source) == 0,
            relative(old(tpu)@, *target),
        ),
{
    let offset = tpu.get_operand_value(target);
    let value = tpu.read_register(*source);
    branch_relative(tpu, value == 0, offset)
}

/// `BRNZ`: branch forward by the offset if the register is not zero.
pub fn op_brnz(
    tpu: &mut TPU,
    target: &OperandValueType,
    source: &Register,
) -> (result: ExecuteResult)
    ensures
        (final(tpu)@, result) == branch(
            old(tpu)@,
            old(tpu)@.reg(*source) != 0,
            relative(old(tpu)@, *target),
        ),
{
    let offset = tpu.get_operand_value(target);
    let value = tpu.read_register(*source);
    branch_relative(tpu, value != 0, offset)
}

/// `BREQ`: branch forward by the offset if the register equals the value.
pub fn op_breq(
    tpu: &mut TPU,
    target: &OperandValueType,
    source: &Register,
    value: &OperandValueType,
) -> (result: ExecuteResult)
    ensures
        (final(tpu)@, result) == branch(
            old(tpu)@,
            old(tpu)@.reg(*source) == old(tpu)@.operand(*value),
            relative(old(tpu)@, *target),
        ),
{
    let offset = tpu.get_operand_value(target);
    let a = tpu.read_register(*source);
    let b = tpu.get_operand_value(value);
    branch_relative(tpu, a == b, offset)
}

/// `BRNE`: branch forward by the offset if the register differs from the value.
pub fn op_brne(
    tpu: &mut TPU,
    target: &OperandValueType,
    source: &Register,
    value: &OperandValueType,
) -> (result: ExecuteResult)
    ensures
        (final(tpu)@, result) == branch(
            old(tpu)@,
            old(tpu)@.reg(*source) != old(tpu)@.operand(*value),
            relative(old(tpu)@, *target),
        ),
{
    let offset = tpu.get_operand_value(target);
    let a = tpu.read_register(*source);
    let b = tpu.get_operand_value(value);
    branch_relative(tpu, a != b, offset)
}

/// `BRGE`: branch forward by the offset if the register is at least the
/// value, unsigned.
pub fn op_brge(
    tpu: &mut TPU,
    target: &OperandValueType,
    source: &Register,
    value: &OperandValueType,
) -> (result: ExecuteResult)
    ensures
        (final(tpu)@, result) == branch(
            old(tpu)@,
            old(tpu)@.reg(*source) >= old(tpu)@.operand(*value),
            relative(old(tpu)@, *target),
        ),
{
    let offset = tpu.get_operand_value(target);
    let a = tpu.read_register(*source);
    let b = tpu.get_operand_value(value);
    branch_relative(tpu, a >= b, offset)
}

/// `BRLE`: branch forward by the offset if the register is at most the
/// value, unsigned.
pub fn op_brle(
    tpu: &mut TPU,
    target: &OperandValueType,
    source: &Register,
    value: &OperandValueType,
) -> (result: ExecuteResult)
    ensures
        (final(tpu)@, result) == branch(
            old(tpu)@,
            old(tpu)@.reg(*source) <= old(tpu)@.operand(*value),
            relative(old(tpu)@, *target),
        ),
{
    let offset = tpu.get_operand_value(target);
    let a = tpu.read_register(*source);
    let b = tpu.get_operand_value(value);
    branch_relative(tpu, a <= b, offset)
}

/// `BRGT`: branch forward by the offset if the register is above the value,
/// unsigned.
pub fn op_brgt(
    tpu: &mut TPU,
    target: &OperandValueType,
    source: &Register,
    value: &OperandValueType,
) -> (result: ExecuteResult)
    ensures
        (final(tpu)@, result) == branch(
            old(tpu)@,
            old(tpu)@.reg(*source) > old(tpu)@.operand(*value),
            relative(old(tpu)@, *target),
        ),
{
    let offset = tpu.get_operand_value(target);
    let a = tpu.read_register(*source);
    let b = tpu.get_operand_value(value);
    branch_relative(tpu, a > b, offset)
}

/// `BRLT`: branch forward by the offset if the register is below the value,
/// unsigned.
pub fn op_brlt(
    tpu: &mut TPU,
    target: &OperandValueType,
    source: &Register,
    value: &OperandValueType,
) -> (result: ExecuteResult)
    ensures
        (final(tpu)@, result) == branch(
            old(tpu)@,
            old(tpu)@.reg(*source) < old(tpu)@.operand(*value),
            relative(old(tpu)@, *target),
        ),
{
    let offset = tpu.get_operand_value(target);
    let a = tpu.read_register(*source);
    let b = tpu.get_operand_value(value);
    branch_relative(tpu, a < b, offset)
}

/// `JSR`: call the subroutine at the address: push the program counter and
/// jump. A full stack halts the machine, and so does an address outside the
/// program; neither pushes.
pub fn op_jsr(tpu: &mut TPU, target: &OperandValueType) -> (result: ExecuteResult)
    ensures
        (final(tpu)@, result) == call(old(tpu)@, old(tpu)@.operand(*target) as int),
{
    let address = tpu.get_operand_value(target);
    if tpu.tpu_state.stack.len() >= TPU::STACK_SIZE {
        return ExecuteResult::Halt(HaltReason::StackOverflow);
    }
    let old_pc = tpu.tpu_state.program_counter;
    let result = set_program_counter_conditionally(tpu, true, address as usize);
    if let ExecuteResult::PCModified = result {
        #[verifier::truncate]
        let return_address = old_pc as u16;
        proof {
            crate::tpu::lemma_truncate_u16(old_pc);
        }
        tpu.push(return_address);
    }
    result
}

/// `RTS`: return from a subroutine: pop the stack and jump there. An empty
/// stack yields address 0.
pub fn op_rts(tpu: &mut TPU) -> (result: ExecuteResult)
    ensures
        (final(tpu)@, result) == jump(old(tpu)@.pop(), old(tpu)@.top() as int),
{
    let address = tpu.pop() as usize;
    set_program_counter_conditionally(tpu, true, address)
}

} // verus!
