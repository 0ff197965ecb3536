//! Digital and analog pin instructions, and the network instructions.
pub mod decode;

use crate::shared::{AnalogPin, DigitalPin, ExecuteResult, HaltReason, OperandValueType, Register};
use crate::tpu::model::{wrap16, TpuModel};
use crate::tpu::TPU;
use vstd::prelude::*;

verus! {

/// The state after a receive: the sender of the oldest incoming packet in X,
/// its data in Y, and the packet gone from the queue. With nothing to
/// receive, X and Y are cleared.
pub open spec fn receive(m: TpuModel) -> TpuModel {
    m.drop_packet().set_reg(Register::X, m.next_packet().sender).set_reg(
        Register::Y,
        m.next_packet().data,
    )
}

/// `DPW`: write a digital line: high for a non-zero value. An input line
/// ignores the write. A pin number of 8 or more halts the machine and
/// changes nothing.
pub fn op_dpw(
    tpu: &mut TPU,
    target: &OperandValueType,
    source: &OperandValueType,
) -> (result: ExecuteResult)
    ensures
        old(tpu)@.operand(*target) >= DigitalPin::COUNT ==> result == ExecuteResult::Halt(
            HaltReason::IndexOutOfRange,
        ) && final(tpu)@ == old(tpu)@,
        old(tpu)@.operand(*target) < DigitalPin::COUNT ==> result == ExecuteResult::PCAdvance
            && final(tpu)@ == old(tpu)@.set_digital_pin(
            old(tpu)@.operand(*target) as int,
            old(tpu)@.operand(*source) != 0,
        ),
{
    let pin_num = tpu.get_operand_value(target);
    let value = tpu.get_operand_value(source);
    let pin = match DigitalPin::from_repr(pin_num) {
        Some(p) => p,
        None => return ExecuteResult::Halt(HaltReason::IndexOutOfRange),
    };
    tpu.set_digital_pin(pin, value != 0);
    ExecuteResult::PCAdvance
}

/// `DPR`: read a digital line into the register, as 1 or 0. A pin number of
/// 8 or more halts the machine and changes nothing.
pub fn op_dpr(
    tpu: &mut TPU,
    target: &Register,
    source: &OperandValueType,
) -> (result: ExecuteResult)
    ensures
        old(tpu)@.operand(*source) >= DigitalPin::COUNT ==> result == ExecuteResult::Halt(
            HaltReason::IndexOutOfRange,
        ) && final(tpu)@ == old(tpu)@,
        old(tpu)@.operand(*source) < DigitalPin::COUNT ==> result == ExecuteResult::PCAdvance
            && final(tpu)@ == old(tpu)@.set_reg(
            *target,
            if old(tpu)@.digital_pins[old(tpu)@.operand(*source) as int] {
                1
            } else {
                0
            },
        ),
{
    let pin_num = tpu.get_operand_value(source);
    let pin = match DigitalPin::from_repr(pin_num) {
        Some(p) => p,
        None => return ExecuteResult::Halt(HaltReason::IndexOutOfRange),
    };
    let value = tpu.get_digital_pin(pin);
    tpu.write_register(
        *target,
        if value {
            1
        } else {
            0
        },
    );
    ExecuteResult::PCAdvance
}

/// `APW`: write an analog channel. An input channel ignores the write. A
/// pin number of 4 or more halts the machine and changes nothing.
pub fn op_apw(
    tpu: &mut TPU,
    target: &OperandValueType,
    source: &OperandValueType,
) -> (result: ExecuteResult)
    ensures
        old(tpu)@.operand(*target) >= AnalogPin::COUNT ==> result == ExecuteResult::Halt(
            HaltReason::IndexOutOfRange,
        ) && final(tpu)@ == old(tpu)@,
        old(tpu)@.operand(*target) < AnalogPin::COUNT ==> result == ExecuteResult::PCAdvance
            && final(tpu)@ == old(tpu)@.set_analog_pin(
            old(tpu)@.operand(*target) as int,
            old(tpu)@.operand(*source),
        ),
{
    let pin_num = tpu.get_operand_value(target);
    let value = tpu.get_operand_value(source);
    let pin = match AnalogPin::from_repr(pin_num) {
        Some(p) => p,
        None => return ExecuteResult::Halt(HaltReason::IndexOutOfRange),
    };
    tpu.set_analog_pin(pin, value);
    ExecuteResult::PCAdvance
}

/// `APR`: read an analog channel into the register. A pin number of 4 or
/// more halts the machine and changes nothing.
pub fn op_apr(
    tpu: &mut TPU,
    target: &Register,
    source: &OperandValueType,
) -> (result: ExecuteResult)
    ensures
        old(tpu)@.operand(*source) >= AnalogPin::COUNT ==> result == ExecuteResult::Halt(
            HaltReason::IndexOutOfRange,
        ) && final(tpu)@ == old(tpu)@,
        old(tpu)@.operand(*source) < AnalogPin::COUNT ==> result == ExecuteResult::PCAdvance
            && final(tpu)@ == old(tpu)@.set_reg(
            *target,
            old(tpu)@.analog_pins[old(tpu)@.operand(*source) as int],
        ),
{
    let pin_num = tpu.get_operand_value(source);
    let value = match AnalogPin::from_repr(pin_num) {
        Some(p) => tpu.get_analog_pin(p),
        None => return ExecuteResult::Halt(HaltReason::IndexOutOfRange),
    };
    tpu.write_register(*target, value);
    ExecuteResult::PCAdvance
}

/// `XMIT`: queue a packet with the data for the address in the register.
/// With a full queue the packet is dropped.
pub fn op_xmit(tpu: &mut TPU, target: &Register, data: &OperandValueType) -> (result: ExecuteResult)
    ensures
        result == ExecuteResult::PCAdvance,
        old(tpu)@.outgoing_packets.len() < TPU::NET_BUFFER_SIZE ==> final(tpu)@
            == old(tpu)@.send_packet(old(tpu)@.reg(*target), old(tpu)@.operand(*data)),
        old(tpu)@.outgoing_packets.len() >= TPU::NET_BUFFER_SIZE ==> final(tpu)@ == old(tpu)@,
{
    let target = tpu.read_register(*target);
    let data = tpu.get_operand_value(data);
    if tpu.tpu_state.outgoing_packets.len() < TPU::NET_BUFFER_SIZE {
        tpu.send_packet(target, data);
    }
    ExecuteResult::PCAdvance
}

/// `RECV`: take the oldest incoming packet: its sender into X, its data
/// into Y. With nothing to receive, X and Y are cleared.
pub fn op_recv(tpu: &mut TPU) -> (result: ExecuteResult)
    ensures
        result == ExecuteResult::PCAdvance,
        final(tpu)@ == receive(old(tpu)@),
{
    let packet = tpu.receive_packet();
    tpu.write_register(Register::X, packet.sender);
    tpu.write_register(Register::Y, packet.data);
    ExecuteResult::PCAdvance
}

/// `TXBS`: the number of packets that wait to be sent, into X.
pub fn op_txbs(tpu: &mut TPU) -> (result: ExecuteResult)
    ensures
        result == ExecuteResult::PCAdvance,
        final(tpu)@ == old(tpu)@.set_reg(
            Register::X,
            wrap16(old(tpu)@.outgoing_packets.len() as int),
        ),
{
    let size = tpu.tpu_state.outgoing_packets.len();
    #[verifier::truncate]
    let tx_buffer_size = size as u16;
    proof {
        crate::tpu::lemma_truncate_u16(size);
    }
    tpu.write_register(Register::X, tx_buffer_size);
    ExecuteResult::PCAdvance
}

/// `RXBS`: the number of packets that wait to be received, modulo 2^16,
/// into X.
pub fn op_rxbs(tpu: &mut TPU) -> (result: ExecuteResult)
    ensures
        result == ExecuteResult::PCAdvance,
        final(tpu)@ == old(tpu)@.set_reg(
            Register::X,
            wrap16(old(tpu)@.incoming_packets.len() as int),
        ),
{
    let size = tpu.tpu_state.incoming_packets.len();
    #[verifier::truncate]
    let rx_buffer_size = size as u16;
    proof {
        crate::tpu::lemma_truncate_u16(size);
    }
    tpu.write_register(Register::X, rx_buffer_size);
    ExecuteResult::PCAdvance
}

/// `DPWW`: write all digital lines at once: line `i` takes bit `i` of the
/// value. Input lines ignore the write.
pub fn op_dpww(tpu: &mut TPU, value: &OperandValueType) -> (result: ExecuteResult)
    ensures
        result == ExecuteResult::PCAdvance,
        final(tpu)@ == old(tpu)@.set_digital_pins(old(tpu)@.operand(*value)),
{
    let bitmask = tpu.get_operand_value(value);
    tpu.set_digital_pins(bitmask);
    ExecuteResult::PCAdvance
}

/// `DPRW`: read all digital lines into the register: bit `i` is line `i`.
pub fn op_dprw(tpu: &mut TPU, target: &Register) -> (result: ExecuteResult)
    ensures
        result == ExecuteResult::PCAdvance,
        final(tpu)@ == old(tpu)@.set_reg(*target, old(tpu)@.digital_word()),
{
    let value = tpu.get_digital_pins();
    tpu.write_register(*target, value);
    ExecuteResult::PCAdvance
}

} // verus!
