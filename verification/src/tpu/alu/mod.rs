//! Arithmetic, logic, shifts and rotates.
pub mod decode;

use crate::shared::{ExecuteResult, HaltReason, OperandValueType, Register};
use crate::tpu::model::wrap16;
use crate::tpu::TPU;
use vstd::prelude::*;

verus! {

/// `value` shifted left by `n mod 16` places.
pub open spec fn shift_left(value: u16, n: u16) -> u16 {
    value << (n % 16)
}

/// `value` shifted right by `n mod 16` places.
pub open spec fn shift_right(value: u16, n: u16) -> u16 {
    value >> (n % 16)
}

/// The bits that a left shift by `n` pushes out of `value`, as the low bits
/// of the result: nothing for `n == 0`, all of `value` for `n >= 16`.
pub open spec fn carry_left(value: u16, n: u16) -> u16 {
    if n == 0 {
        0
    } else if n >= 16 {
        value
    } else {
        value >> ((16 - n) as u16)
    }
}

/// The bits that a right shift by `n` pushes out of `value`, as the high bits
/// of the result: nothing for `n == 0`, all of `value` for `n >= 16`.
pub open spec fn carry_right(value: u16, n: u16) -> u16 {
    if n == 0 {
        0
    } else if n >= 16 {
        value
    } else {
        value << ((16 - n) as u16)
    }
}

/// `value` rotated left by `n mod 16` places.
pub open spec fn rotate_left(value: u16, n: u16) -> u16 {
    let r = n % 16;
    if r == 0 {
        value
    } else {
        (value << r) | (value >> ((16 - r) as u16))
    }
}

/// `value` rotated right by `n mod 16` places.
pub open spec fn rotate_right(value: u16, n: u16) -> u16 {
    let r = n % 16;
    if r == 0 {
        value
    } else {
        (value >> r) | (value << ((16 - r) as u16))
    }
}

/// `INC`: add one to the register, wrapping.
pub fn op_inc(tpu: &mut TPU, target: &Register) -> (result: ExecuteResult)
    ensures
        result == ExecuteResult::PCAdvance,
        final(tpu)@ == old(tpu)@.set_reg(*target, wrap16(old(tpu)@.reg(*target) + 1)),
{
    let value = tpu.read_register(*target).wrapping_add(1);
    tpu.write_register(*target, value);
    ExecuteResult::PCAdvance
}

/// `DEC`: subtract one from the register, wrapping.
pub fn op_dec(tpu: &mut TPU, target: &Register) -> (result: ExecuteResult)
    ensures
        result == ExecuteResult::PCAdvance,
        final(tpu)@ == old(tpu)@.set_reg(*target, wrap16(old(tpu)@.reg(*target) - 1)),
{
    let value = tpu.read_register(*target).wrapping_sub(1);
    tpu.write_register(*target, value);
    ExecuteResult::PCAdvance
}

/// `ADD`: the sum of the two registers, modulo 2^16, into A.
pub fn op_add(tpu: &mut TPU, left: &Register, right: &Register) -> (result: ExecuteResult)
    ensures
        result == ExecuteResult::PCAdvance,
        final(tpu)@ == old(tpu)@.set_reg(
            Register::A,
            wrap16(old(tpu)@.reg(*left) + old(tpu)@.reg(*right)),
        ),
{
    let a = tpu.read_register(*left);
    let b = tpu.read_register(*right);
    let value = a.wrapping_add(b);
    tpu.write_register(Register::A, value);
    ExecuteResult::PCAdvance
}

/// `SUB`: the difference of the two registers, modulo 2^16, into A.
pub fn op_sub(tpu: &mut TPU, left: &Register, right: &Register) -> (result: ExecuteResult)
    ensures
        result == ExecuteResult::PCAdvance,
        final(tpu)@ == old(tpu)@.set_reg(
            Register::A,
            wrap16(old(tpu)@.reg(*left) - old(tpu)@.reg(*right)),
        ),
{
    let a = tpu.read_register(*left);
    let b = tpu.read_register(*right);
    let value = a.wrapping_sub(b);
    tpu.write_register(Register::A, value);
    ExecuteResult::PCAdvance
}

/// `MUL`: the product of the two registers, modulo 2^16, into A.
pub fn op_mul(tpu: &mut TPU, left: &Register, right: &Register) -> (result: ExecuteResult)
    ensures
        result == ExecuteResult::PCAdvance,
        final(tpu)@ == old(tpu)@.set_reg(
            Register::A,
            wrap16(old(tpu)@.reg(*left) * old(tpu)@.reg(*right)),
        ),
{
    let a = tpu.read_register(*left);
    let b = tpu.read_register(*right);
    let value = a.wrapping_mul(b);
    tpu.write_register(Register::A, value);
    ExecuteResult::PCAdvance
}

/// `DIV`: the quotient of the two registers into A; a zero divisor halts the
/// machine and changes nothing.
pub fn op_div(tpu: &mut TPU, left: &Register, right: &Register) -> (result: ExecuteResult)
    ensures
        old(tpu)@.reg(*right) == 0 ==> result == ExecuteResult::Halt(HaltReason::Div0)
            && final(tpu)@ == old(tpu)@,
        old(tpu)@.reg(*right) != 0 ==> result == ExecuteResult::PCAdvance
            && final(tpu)@ == old(tpu)@.set_reg(
            Register::A,
            old(tpu)@.reg(*left) / old(tpu)@.reg(*right),
        ),
{
    let a = tpu.read_register(*left);
    let b = tpu.read_register(*right);
    if b == 0 {
        return ExecuteResult::Halt(HaltReason::Div0);
    }
    let value = a / b;
    tpu.write_register(Register::A, value);
    ExecuteResult::PCAdvance
}

/// `MOD`: the remainder of the two registers into A; a zero divisor halts
/// the machine and changes nothing.
pub fn op_mod(tpu: &mut TPU, left: &Register, right: &Register) -> (result: ExecuteResult)
    ensures
        old(tpu)@.reg(*right) == 0 ==> result == ExecuteResult::Halt(HaltReason::Div0)
            && final(tpu)@ == old(tpu)@,
        old(tpu)@.reg(*right) != 0 ==> result == ExecuteResult::PCAdvance
            && final(tpu)@ == old(tpu)@.set_reg(
            Register::A,
            old(tpu)@.reg(*left) % old(tpu)@.reg(*right),
        ),
{
    let a = tpu.read_register(*left);
    let b = tpu.read_register(*right);
    if b == 0 {
        return ExecuteResult::Halt(HaltReason::Div0);
    }
    let value = a % b;
    tpu.write_register(Register::A, value);
    ExecuteResult::PCAdvance
}

/// `AND`: bitwise and of the two registers into A.
pub fn op_and(tpu: &mut TPU, left: &Register, right: &Register) -> (result: ExecuteResult)
    ensures
        result == ExecuteResult::PCAdvance,
        final(tpu)@ == old(tpu)@.set_reg(
            Register::A,
            old(tpu)@.reg(*left) & old(tpu)@.reg(*right),
        ),
{
    let a = tpu.read_register(*left);
    let b = tpu.read_register(*right);
    tpu.write_register(Register::A, a & b);
    ExecuteResult::PCAdvance
}

/// `OR`: bitwise or of the two registers into A.
pub fn op_or(tpu: &mut TPU, left: &Register, right: &Register) -> (result: ExecuteResult)
    ensures
        result == ExecuteResult::PCAdvance,
        final(tpu)@ == old(tpu)@.set_reg(
            Register::A,
            old(tpu)@.reg(*left) | old(tpu)@.reg(*right),
        ),
{
    let a = tpu.read_register(*left);
    let b = tpu.read_register(*right);
    tpu.write_register(Register::A, a | b);
    ExecuteResult::PCAdvance
}

/// `XOR`: bitwise exclusive or of the two registers into A.
pub fn op_xor(tpu: &mut TPU, left: &Register, right: &Register) -> (result: ExecuteResult)
    ensures
        result == ExecuteResult::PCAdvance,
        final(tpu)@ == old(tpu)@.set_reg(
            Register::A,
            old(tpu)@.reg(*left) ^ old(tpu)@.reg(*right),
        ),
{
    let a = tpu.read_register(*left);
    let b = tpu.read_register(*right);
    tpu.write_register(Register::A, a ^ b);
    ExecuteResult::PCAdvance
}

/// `NOT`: bitwise complement of the register into A.
pub fn op_not(tpu: &mut TPU, left: &Register) -> (result: ExecuteResult)
    ensures
        result == ExecuteResult::PCAdvance,
        final(tpu)@ == old(tpu)@.set_reg(Register::A, !old(tpu)@.reg(*left)),
{
    let a = tpu.read_register(*left);
    tpu.write_register(Register::A, !a);
    ExecuteResult::PCAdvance
}

/// `SLL`: the source register shifted left into the target register.
pub fn op_sll(
    tpu: &mut TPU,
    target: &Register,
    value: &Register,
    shift: &OperandValueType,
) -> (result: ExecuteResult)
    ensures
        result == ExecuteResult::PCAdvance,
        final(tpu)@ == old(tpu)@.set_reg(
            *target,
            shift_left(old(tpu)@.reg(*value), old(tpu)@.operand(*shift)),
        ),
{
    let value = tpu.read_register(*value);
    let shift = tpu.get_operand_value(shift);
    tpu.write_register(*target, value << (shift % 16));
    ExecuteResult::PCAdvance
}

/// `SLC`: the source register shifted left into the target register, then
/// the bits shifted out into A.
pub fn op_slc(
    tpu: &mut TPU,
    target: &Register,
    value: &Register,
    shift: &OperandValueType,
) -> (result: ExecuteResult)
    ensures
        result == ExecuteResult::PCAdvance,
        final(tpu)@ == old(tpu)@.set_reg(
            *target,
            shift_left(old(tpu)@.reg(*value), old(tpu)@.operand(*shift)),
        ).set_reg(Register::A, carry_left(old(tpu)@.reg(*value), old(tpu)@.operand(*shift))),
{
    let value = tpu.read_register(*value);
    let shift = tpu.get_operand_value(shift);
    let carry = if shift > 0 && shift < 16 {
        value >> (16 - shift)
    } else if shift >= 16 {
        value
    } else {
        0
    };
    tpu.write_register(*target, value << (shift % 16));
    tpu.write_register(Register::A, carry);
    ExecuteResult::PCAdvance
}

/// `SLR`: the source register shifted right into the target register.
pub fn op_slr(
    tpu: &mut TPU,
    target: &Register,
    value: &Register,
    shift: &OperandValueType,
) -> (result: ExecuteResult)
    ensures
        result == ExecuteResult::PCAdvance,
        final(tpu)@ == old(tpu)@.set_reg(
            *target,
            shift_right(old(tpu)@.reg(*value), old(tpu)@.operand(*shift)),
        ),
{
    let value = tpu.read_register(*value);
    let shift = tpu.get_operand_value(shift);
    tpu.write_register(*target, value >> (shift % 16));
    ExecuteResult::PCAdvance
}

/// `SRC`: the source register shifted right into the target register, then
/// the bits shifted out into A.
pub fn op_src(
    tpu: &mut TPU,
    target: &Register,
    value: &Register,
    shift: &OperandValueType,
) -> (result: ExecuteResult)
    ensures
        result == ExecuteResult::PCAdvance,
        final(tpu)@ == old(tpu)@.set_reg(
            *target,
            shift_right(old(tpu)@.reg(*value), old(tpu)@.operand(*shift)),
        ).set_reg(Register::A, carry_right(old(tpu)@.reg(*value), old(tpu)@.operand(*shift))),
{
    let value = tpu.read_register(*value);
    let shift = tpu.get_operand_value(shift);
    let carry = if shift > 0 && shift < 16 {
        value << (16 - shift)
    } else if shift >= 16 {
        value
    } else {
        0
    };
    tpu.write_register(*target, value >> (shift % 16));
    tpu.write_register(Register::A, carry);
    ExecuteResult::PCAdvance
}

/// `ROL`: the source register rotated left into the target register.
pub fn op_rol(
    tpu: &mut TPU,
    target: &Register,
    value: &Register,
    rotate: &OperandValueType,
) -> (result: ExecuteResult)
    ensures
        result == ExecuteResult::PCAdvance,
        final(tpu)@ == old(tpu)@.set_reg(
            *target,
            rotate_left(old(tpu)@.reg(*value), old(tpu)@.operand(*rotate)),
        ),
{
    let value = tpu.read_register(*value);
    let rotate = tpu.get_operand_value(rotate) % 16;
    let rotated = if rotate == 0 {
        value
    } else {
        (value << rotate) | (value >> (16 - rotate))
    };
    tpu.write_register(*target, rotated);
    ExecuteResult::PCAdvance
}

/// `ROR`: the source register rotated right into the target register.
pub fn op_ror(
    tpu: &mut TPU,
    target: &Register,
    value: &Register,
    rotate: &OperandValueType,
) -> (result: ExecuteResult)
    ensures
        result == ExecuteResult::PCAdvance,
        final(tpu)@ == old(tpu)@.set_reg(
            *target,
            rotate_right(old(tpu)@.reg(*value), old(tpu)@.operand(*rotate)),
        ),
{
    let value = tpu.read_register(*value);
    let rotate = tpu.get_operand_value(rotate) % 16;
    let rotated = if rotate == 0 {
        value
    } else {
        (value >> rotate) | (value << (16 - rotate))
    };
    tpu.write_register(*target, rotated);
    ExecuteResult::PCAdvance
}

} // verus!
