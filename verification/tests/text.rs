use std::rc::Rc;
use tls::shared::{AnalogPin, DigitalPin, Instruction, NetPacket, OperandValueType, Register};
use tls::tpu::{create_basic_tpu_config, TpuState, TPU};

#[test]
fn test_tpu_state_display() {
    // Create a TPU with some test values
    let mut tpu = TPU::new(
        0x1234,
        [true, false, true, false],
        [false, true, false, true, false, true, false, true],
        vec![],
    );

    // Set some register values
    for (i, reg) in Register::iter().into_iter().enumerate() {
        tpu.write_register(reg, (i * 0x100) as u16);
    }

    // Push some values to the stack
    for i in 0..(TPU::STACK_SIZE as u16) - 8 {
        tpu.push(0xABCD + i);
    }

    // Set some RAM values
    for i in 0..TPU::RAM_SIZE {
        tpu.write_ram(i, (0x1000 + i) as u16);
    }

    // Set some analog pin values
    for (i, pin) in AnalogPin::iter().into_iter().enumerate() {
        tpu.set_analog_pin(pin, (0x2000 + i) as u16);
    }

    // Set some digital pin values
    for (i, pin) in DigitalPin::iter().into_iter().enumerate() {
        tpu.set_digital_pin(pin, i % 2 == 0);
    }

    // Print the TPU state
    println!("{}", tpu.tpu_state.render());

    // Basic assertion to ensure the test runs
    assert!(true);
}

// The table, written with the formatting of the standard library.
fn expected_table(state: &TpuState) -> String {
    let h = "─";
    let v = "│";
    let mut t = String::new();
    t += &format!("┌{}┐\n", h.repeat(59));
    t += &format!("{} TPU State Display                                         {}\n", v, v);
    t += &format!("├{}┬{}┤\n", h.repeat(29), h.repeat(29));
    t += &format!("{} System Status               {} Network                     {}\n", v, v, v);
    t += &format!(
        "{} Program Counter: {:08x}   {} Network Address:  {:04x}      {}\n",
        v, state.program_counter, v, state.network_address, v
    );
    t += &format!(
        "{} Wait Cycles:     {:04x}       {} Incoming Packets: {:04x}      {}\n",
        v,
        state.execution_state.wait_cycles,
        v,
        state.incoming_packets.len(),
        v
    );
    t += &format!(
        "{} Halted: {:<19} {} Outgoing Packets: {:04x}      {}\n",
        v,
        state.halted,
        v,
        state.outgoing_packets.len(),
        v
    );
    t += &format!("├{}┴{}┤\n", h.repeat(29), h.repeat(29));
    t += &format!("{} Registers                                                 {}\n", v, v);
    t += &format!("{} ", v);
    for (i, reg) in Register::iter().into_iter().enumerate() {
        let name = format!("{:?}", reg);
        let pad = if name.len() == 1 { " " } else { "" };
        t += &format!("{}{}: {:04x} ", pad, name, state.registers[i]);
        if (i + 1) % 5 == 0 && i < Register::COUNT - 1 {
            t += &format!("             {}\n", v);
            t += &format!("{} ", v);
        }
    }
    t += &format!("             {}\n", v);
    t += &format!("├{}┤\n", h.repeat(59));
    t += &format!(
        "{} Stack (Size: {:04x})                                        {}\n",
        v,
        state.stack.len(),
        v
    );
    if state.stack.is_empty() {
        t += &format!("{} <empty>                                                   {}\n", v, v);
    } else {
        let mut line_n = 0;
        for (i, value) in state.stack.iter().enumerate() {
            if i % 8 == 0 && i > 0 {
                t += &format!("                   {}\n", v);
                t += &format!("{} ", v);
                line_n = 0;
            } else if i > 0 {
                t += " ";
            } else {
                t += &format!("{} ", v);
            }
            line_n += 1;
            t += &format!("{:04x}", value);
        }
        t += &format!("{:>width$}{}\n", "", v, width = 59 - (line_n * 5));
    }
    t += &format!("├{}┤\n", h.repeat(59));
    t += &format!("{} RAM                                                       {}\n", v, v);
    for i in 0..TPU::RAM_SIZE {
        if i % 8 == 0 {
            if i > 0 {
                t += &format!("               {}\n", v);
            }
            t += &format!("{} {:02x}: ", v, i);
        } else {
            t += " ";
        }
        t += &format!("{:04x}", state.ram[i]);
    }
    t += &format!("               {}\n", v);
    t += &format!("├{}┤\n", h.repeat(59));
    t += &format!("{} I/O Pins                                                  {}\n", v, v);
    t += &format!("{} Analog:  ", v);
    for i in 0..AnalogPin::COUNT {
        let config = if state.analog_pin_config[i] { "I" } else { "O" };
        t += &format!("{}{}:{:04x} ", config, i, state.analog_pins[i]);
    }
    t += &format!("{:>width$}{}\n", "", v, width = 49 - AnalogPin::COUNT * 8);
    t += &format!("{} Digital: ", v);
    for i in 0..DigitalPin::COUNT {
        let value = if state.digital_pins[i] { "1" } else { "0" };
        let config = if state.digital_pin_config[i] { "I" } else { "O" };
        t += &format!("{}{}:{} ", config, i, value);
    }
    t += &format!("{:>width$}{}\n", "", v, width = 49 - DigitalPin::COUNT * 5);
    t += &format!("└{}┘\n", h.repeat(59));
    t
}

#[test]
fn table_of_a_fresh_machine() {
    let tpu = create_basic_tpu_config(vec![]);
    let table = tpu.state().render();
    assert_eq!(table, expected_table(tpu.state()));
    let lines: Vec<&str> = table.lines().collect();
    assert_eq!(lines.len(), 37);
    assert_eq!(lines[4], "│ Program Counter: 00000000   │ Network Address:  0001      │");
    assert_eq!(lines[6], "│ Halted: false               │ Outgoing Packets: 0000      │");
    assert_eq!(lines[9], "│  A: 0000  X: 0000  Y: 0000 R0: 0000 R1: 0000              │");
    assert_eq!(lines[10], "│ R2: 0000 R3: 0000 R4: 0000 R5: 0000 R6: 0000              │");
    assert_eq!(lines[13], "│ <empty>                                                   │");
    assert_eq!(lines[16], "│ 00: 0000 0000 0000 0000 0000 0000 0000 0000               │");
    assert_eq!(lines[31], "│ 78: 0000 0000 0000 0000 0000 0000 0000 0000               │");
    assert_eq!(lines[34], "│ Analog:  O0:0000 O1:0000 O2:0000 O3:0000                  │");
    assert_eq!(lines[35], "│ Digital: O0:0 O1:0 O2:0 O3:0 O4:0 O5:0 O6:0 O7:0          │");
    for line in lines {
        assert_eq!(line.chars().count(), 61);
    }
}

#[test]
fn table_of_a_busy_machine() {
    let mut tpu = TPU::new(
        0xbeef,
        [true, false, true, false],
        [false, true, false, true, false, true, false, true],
        vec![Rc::new(Instruction::DIV(Register::A, Register::X)); 300],
    );
    for depth in 0..=16u16 {
        if depth > 0 {
            tpu.push(0xfff0 + depth);
        }
        assert_eq!(tpu.state().render(), expected_table(tpu.state()), "depth {depth}");
    }
    for (i, register) in Register::iter().into_iter().enumerate() {
        tpu.write_register(register, 0x1111 * i as u16 + 0xa);
    }
    for i in 0..TPU::RAM_SIZE {
        tpu.write_ram(i, (i as u16).wrapping_mul(0x0203));
    }
    tpu.tpu_state.analog_pins = [1, 0x22, 0x333, 0xffff];
    tpu.tpu_state.digital_pins = [true, false, true, true, false, false, true, false];
    for data in 0..300 {
        tpu.deliver_packet(NetPacket { sender: 2, target: 1, data });
    }
    tpu.send_packet(7, 8);
    tpu.tpu_state.program_counter = 299;
    tpu.tick();
    assert!(tpu.busy());
    assert_eq!(tpu.state().render(), expected_table(tpu.state()));
    tpu.tpu_state.halted = true;
    tpu.tpu_state.program_counter = 0x1_2345_6789;
    let table = tpu.state().render();
    assert_eq!(table, expected_table(tpu.state()));
    assert!(table.contains("│ Program Counter: 123456789   │ Network Address:  beef      │"));
    assert!(table.contains("│ Wait Cycles:     0005       │ Incoming Packets: 012c      │"));
    assert!(table.contains("│ Halted: true                │ Outgoing Packets: 0001      │"));
    assert!(table.contains("│ Analog:  I0:0001 O1:0022 I2:0333 O3:ffff                  │"));
    assert!(table.contains("│ Digital: O0:1 I1:0 O2:1 I3:1 O4:0 I5:0 O6:1 I7:0          │"));
}

#[test]
fn names_and_operands_as_text() {
    let names = ["A", "X", "Y", "R0", "R1", "R2", "R3", "R4", "R5", "R6"];
    for (register, name) in Register::iter().into_iter().zip(names) {
        assert_eq!(register.name(), name);
        assert_eq!(register.name(), format!("{:?}", register));
        assert_eq!(OperandValueType::Register(register).to_text(), name);
    }
    for value in [0u16, 9, 10, 15, 16, 0xab, 0x0abc, 0x1000, 0xbeef, 0xffff] {
        assert_eq!(OperandValueType::Immediate(value).to_text(), format!("{:04X}", value));
    }
    assert_eq!(OperandValueType::Immediate(42).to_text(), "002A");
}

#[test]
fn mnemonics_of_instructions() {
    let r = Register::R3;
    let v = OperandValueType::Immediate(1);
    for instruction in [
        Instruction::PUSH(v),
        Instruction::POP(r),
        Instruction::PEEK(r, v),
        Instruction::SCR,
        Instruction::RSP(r),
        Instruction::XMIT(r, v),
        Instruction::RECV,
        Instruction::TXBS,
        Instruction::RXBS,
        Instruction::ADD(r, r),
        Instruction::SUB(r, r),
        Instruction::MUL(r, r),
        Instruction::DIV(r, r),
        Instruction::MOD(r, r),
        Instruction::AND(r, r),
        Instruction::OR(r, r),
        Instruction::XOR(r, r),
        Instruction::NOT(r),
        Instruction::INC(r),
        Instruction::DEC(r),
        Instruction::SLL(r, r, v),
        Instruction::SLC(r, r, v),
        Instruction::SLR(r, r, v),
        Instruction::SRC(r, r, v),
        Instruction::ROL(r, r, v),
        Instruction::ROR(r, r, v),
        Instruction::RCY(r, r),
        Instruction::RMV(r, r),
        Instruction::LDR(r, v),
        Instruction::LDO(r, v, r),
        Instruction::LDOI(r, v, r),
        Instruction::STM(v, v),
        Instruction::STMO(v, v, r),
        Instruction::SMOI(v, v, r),
        Instruction::DPW(v, v),
        Instruction::DPR(r, v),
        Instruction::DPWW(v),
        Instruction::DPRW(r),
        Instruction::APW(v, v),
        Instruction::APR(r, v),
        Instruction::NOP,
        Instruction::SLP(v),
        Instruction::WRX,
        Instruction::HLT,
        Instruction::JMP(v),
        Instruction::BEZ(v, r),
        Instruction::BNZ(v, r),
        Instruction::BEQ(v, r, v),
        Instruction::BNE(v, r, v),
        Instruction::BGE(v, r, v),
        Instruction::BLE(v, r, v),
        Instruction::BGT(v, r, v),
        Instruction::BLT(v, r, v),
        Instruction::JPR(v),
        Instruction::BREZ(v, r),
        Instruction::BRNZ(v, r),
        Instruction::BREQ(v, r, v),
        Instruction::BRNE(v, r, v),
        Instruction::BRGE(v, r, v),
        Instruction::BRLE(v, r, v),
        Instruction::BRGT(v, r, v),
        Instruction::BRLT(v, r, v),
        Instruction::JSR(v),
        Instruction::RTS,
    ] {
        let debug = format!("{:?}", instruction);
        let name = debug.split('(').next().unwrap();
        assert_eq!(instruction.mnemonic(), name);
    }
}
