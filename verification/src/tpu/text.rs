//! The state of a machine as a table of text, for logs and terminals.
//!
//! The table is described by functions that each add a part to the text so
//! far; [`state_text`] puts the parts together.
use crate::shared::Register;
use crate::text::{digit_char, digit_text, hex, push_hex, push_repeated, repeated};
use crate::tpu::model::TpuModel;
use crate::tpu::TpuState;
use vstd::prelude::*;
use vstd::string::StringExecFns;

verus! {

/// The name of a register in two columns.
pub open spec fn register_label(register: Register) -> Seq<char> {
    match register {
        Register::A => " A"@,
        Register::X => " X"@,
        Register::Y => " Y"@,
        Register::R0 => "R0"@,
        Register::R1 => "R1"@,
        Register::R2 => "R2"@,
        Register::R3 => "R3"@,
        Register::R4 => "R4"@,
        Register::R5 => "R5"@,
        Register::R6 => "R6"@,
    }
}

/// The register at position `i` of the register file.
pub open spec fn register_at(i: int) -> Register {
    if i == 0 {
        Register::A
    } else if i == 1 {
        Register::X
    } else if i == 2 {
        Register::Y
    } else if i == 3 {
        Register::R0
    } else if i == 4 {
        Register::R1
    } else if i == 5 {
        Register::R2
    } else if i == 6 {
        Register::R3
    } else if i == 7 {
        Register::R4
    } else if i == 8 {
        Register::R5
    } else {
        Register::R6
    }
}

/// `text` and a horizontal rule of the table between the given corners.
pub open spec fn with_rule(text: Seq<char>, left: Seq<char>, right: Seq<char>) -> Seq<char> {
    text + left + repeated("─"@, 59) + right
}

/// `text` and a horizontal rule of the table with a joint in the middle.
pub open spec fn with_split_rule(
    text: Seq<char>,
    left: Seq<char>,
    joint: Seq<char>,
    right: Seq<char>,
) -> Seq<char> {
    text + left + repeated("─"@, 29) + joint + repeated("─"@, 29) + right
}

/// `text` and the head of the table: the title, the column heads, the
/// program counter and the network address.
pub open spec fn with_head(text: Seq<char>, m: TpuModel) -> Seq<char> {
    with_split_rule(
        with_rule(text, "┌"@, "┐\n"@)
            + "│ TPU State Display                                         │\n"@,
        "├"@,
        "┬"@,
        "┤\n"@,
    )
        + "│ System Status               │ Network                     │\n"@
        + "│ Program Counter: "@ + hex(m.program_counter as nat, 8, false)
        + "   │ Network Address:  "@ + hex(m.network_address as nat, 4, false)
        + "      │\n"@
}

/// `text` and the rest of the status: the wait counter, the halt flag and
/// the lengths of the two packet queues.
pub open spec fn with_status(text: Seq<char>, m: TpuModel) -> Seq<char> {
    with_split_rule(
        text + "│ Wait Cycles:     "@ + hex(m.wait_cycles as nat, 4, false)
            + "       │ Incoming Packets: "@ + hex(m.incoming_packets.len(), 4, false)
            + "      │\n"@ + (if m.halted {
            "│ Halted: true                │ Outgoing Packets: "@
        } else {
            "│ Halted: false               │ Outgoing Packets: "@
        }) + hex(m.outgoing_packets.len(), 4, false) + "      │\n"@,
        "├"@,
        "┴"@,
        "┤\n"@,
    )
}

/// `text` and one register: its name, its value, and behind the fifth
/// register the break to the second line.
pub open spec fn with_register(text: Seq<char>, m: TpuModel, i: int) -> Seq<char> {
    text + register_label(register_at(i)) + ": "@ + hex(m.registers[i] as nat, 4, false) + (if i
        == 4 {
        "              │\n│ "@
    } else {
        " "@
    })
}

/// `text` and the first `n` registers.
pub open spec fn with_registers(text: Seq<char>, m: TpuModel, n: int) -> Seq<char>
    decreases n,
{
    if n <= 0 {
        text
    } else {
        with_register(with_registers(text, m, n - 1), m, n - 1)
    }
}

/// `text` and the part for the registers: two lines of five.
pub open spec fn with_register_part(text: Seq<char>, m: TpuModel) -> Seq<char> {
    with_rule(
        with_registers(
            text + "│ Registers                                                 │\n│ "@,
            m,
            10,
        ) + "             │\n"@,
        "├"@,
        "┤\n"@,
    )
}

/// `text` and one stack slot: what separates it from the slot before, and
/// its value. Eight slots make a line.
pub open spec fn with_slot(text: Seq<char>, m: TpuModel, i: int) -> Seq<char> {
    text + (if i == 0 {
        "│ "@
    } else if i % 8 == 0 {
        "                   │\n│ "@
    } else {
        " "@
    }) + hex(m.stack[i] as nat, 4, false)
}

/// `text` and the first `n` stack slots.
pub open spec fn with_slots(text: Seq<char>, m: TpuModel, n: int) -> Seq<char>
    decreases n,
{
    if n <= 0 {
        text
    } else {
        with_slot(with_slots(text, m, n - 1), m, n - 1)
    }
}

/// How many slots the last line of a stack with `n` slots holds, for `n > 0`.
pub open spec fn last_line(n: int) -> int {
    (n - 1) % 8 + 1
}

/// `text` and the part for the stack: its depth, and its slots from the
/// bottom up, the last line filled up with spaces.
pub open spec fn with_stack_part(text: Seq<char>, m: TpuModel) -> Seq<char> {
    with_rule(
        if m.stack.len() == 0 {
            text + "│ Stack (Size: "@ + hex(m.stack.len(), 4, false)
                + ")                                        │\n"@
                + "│ <empty>                                                   │\n"@
        } else {
            with_slots(
                text + "│ Stack (Size: "@ + hex(m.stack.len(), 4, false)
                    + ")                                        │\n"@,
                m,
                m.stack.len() as int,
            ) + repeated(" "@, (59 - 5 * last_line(m.stack.len() as int)) as nat) + "│\n"@
        },
        "├"@,
        "┤\n"@,
    )
}

/// `text` and one memory word: in front of every eighth word a new line
/// with the address, else a space; then the value.
pub open spec fn with_word(text: Seq<char>, m: TpuModel, i: int) -> Seq<char> {
    if i % 8 == 0 {
        (if i > 0 {
            text + "               │\n"@
        } else {
            text
        }) + "│ "@ + hex(i as nat, 2, false) + ": "@ + hex(m.ram[i] as nat, 4, false)
    } else {
        text + " "@ + hex(m.ram[i] as nat, 4, false)
    }
}

/// `text` and the first `n` memory words.
pub open spec fn with_words(text: Seq<char>, m: TpuModel, n: int) -> Seq<char>
    decreases n,
{
    if n <= 0 {
        text
    } else {
        with_word(with_words(text, m, n - 1), m, n - 1)
    }
}

/// `text` and the part for the memory: lines of eight words.
pub open spec fn with_ram_part(text: Seq<char>, m: TpuModel) -> Seq<char> {
    with_rule(
        with_words(
            text + "│ RAM                                                       │\n"@,
            m,
            m.ram.len() as int,
        ) + "               │\n"@,
        "├"@,
        "┤\n"@,
    )
}

/// `text` and one analog channel: its direction, its number and its value.
pub open spec fn with_channel(text: Seq<char>, m: TpuModel, i: int) -> Seq<char> {
    text + (if m.analog_pin_config[i] {
        "I"@
    } else {
        "O"@
    }) + seq![digit_char(i as nat, false)] + ":"@ + hex(m.analog_pins[i] as nat, 4, false) + " "@
}

/// `text` and the first `n` analog channels.
pub open spec fn with_channels(text: Seq<char>, m: TpuModel, n: int) -> Seq<char>
    decreases n,
{
    if n <= 0 {
        text
    } else {
        with_channel(with_channels(text, m, n - 1), m, n - 1)
    }
}

/// `text` and one digital line: its direction, its number and its level.
pub open spec fn with_line(text: Seq<char>, m: TpuModel, i: int) -> Seq<char> {
    text + (if m.digital_pin_config[i] {
        "I"@
    } else {
        "O"@
    }) + seq![digit_char(i as nat, false)] + (if m.digital_pins[i] {
        ":1 "@
    } else {
        ":0 "@
    })
}

/// `text` and the first `n` digital lines.
pub open spec fn with_lines(text: Seq<char>, m: TpuModel, n: int) -> Seq<char>
    decreases n,
{
    if n <= 0 {
        text
    } else {
        with_line(with_lines(text, m, n - 1), m, n - 1)
    }
}

/// `text` and the part for the pins: a line with the analog channels, a
/// line with the digital lines, and the foot of the table.
pub open spec fn with_pin_part(text: Seq<char>, m: TpuModel) -> Seq<char> {
    with_rule(
        with_lines(
            with_channels(
                text + "│ I/O Pins                                                  │\n"@
                    + "│ Analog:  "@,
                m,
                4,
            ) + repeated(" "@, 17) + "│\n│ Digital: "@,
            m,
            8,
        ) + repeated(" "@, 9) + "│\n"@,
        "└"@,
        "┘\n"@,
    )
}

/// The whole table: status, registers, stack, memory and pins.
pub open spec fn state_text(m: TpuModel) -> Seq<char> {
    with_pin_part(
        with_ram_part(
            with_stack_part(
                with_register_part(with_status(with_head(Seq::empty(), m), m), m),
                m,
            ),
            m,
        ),
        m,
    )
}

/// The name of a register in two columns.
pub fn register_label_text(register: Register) -> (text: &'static str)
    ensures
        text@ == register_label(register),
{
    match register {
        Register::A => " A",
        Register::X => " X",
        Register::Y => " Y",
        Register::R0 => "R0",
        Register::R1 => "R1",
        Register::R2 => "R2",
        Register::R3 => "R3",
        Register::R4 => "R4",
        Register::R5 => "R5",
        Register::R6 => "R6",
    }
}

/// Append a horizontal rule of the table between the given corners.
pub fn push_rule(out: &mut String, left: &str, right: &str)
    ensures
        final(out)@ == with_rule(old(out)@, left@, right@),
{
    out.append(left);
    push_repeated(out, "─", 59);
    out.append(right);
}

/// Append a horizontal rule of the table with a joint in the middle.
pub fn push_split_rule(out: &mut String, left: &str, joint: &str, right: &str)
    ensures
        final(out)@ == with_split_rule(old(out)@, left@, joint@, right@),
{
    out.append(left);
    push_repeated(out, "─", 29);
    out.append(joint);
    push_repeated(out, "─", 29);
    out.append(right);
}

impl TpuState {
    /// The state as a table of text: see [`state_text`].
    pub fn render(&self) -> (text: String)
        ensures
            text@ == state_text(self@),
    {
        let mut out = String::new();
        self.push_head(&mut out);
        self.push_status(&mut out);
        self.push_register_part(&mut out);
        self.push_stack_part(&mut out);
        self.push_ram_part(&mut out);
        self.push_pin_part(&mut out);
        out
    }

    /// Append the head of the table: see [`with_head`].
    pub fn push_head(&self, out: &mut String)
        ensures
            final(out)@ == with_head(old(out)@, self@),
    {
        push_rule(out, "┌", "┐\n");
        out.append("│ TPU State Display                                         │\n");
        push_split_rule(out, "├", "┬", "┤\n");
        out.append("│ System Status               │ Network                     │\n");
        out.append("│ Program Counter: ");
        push_hex(out, self.program_counter, 8, false);
        out.append("   │ Network Address:  ");
        push_hex(out, self.network_address as usize, 4, false);
        out.append("      │\n");
    }

    /// Append the rest of the status: see [`with_status`].
    pub fn push_status(&self, out: &mut String)
        ensures
            final(out)@ == with_status(old(out)@, self@),
    {
        out.append("│ Wait Cycles:     ");
        push_hex(out, self.execution_state.wait_cycles as usize, 4, false);
        out.append("       │ Incoming Packets: ");
        push_hex(out, self.incoming_packets.len(), 4, false);
        out.append("      │\n");
        out.append(
            if self.halted {
                "│ Halted: true                │ Outgoing Packets: "
            } else {
                "│ Halted: false               │ Outgoing Packets: "
            },
        );
        push_hex(out, self.outgoing_packets.len(), 4, false);
        out.append("      │\n");
        push_split_rule(out, "├", "┴", "┤\n");
    }

    /// Append the part for the registers: see [`with_register_part`].
    pub fn push_register_part(&self, out: &mut String)
        ensures
            final(out)@ == with_register_part(old(out)@, self@),
    {
        out.append("│ Registers                                                 │\n│ ");
        let ghost start = out@;
        let registers = Register::iter();
        let mut i: usize = 0;
        while i < 10
            invariant
                i <= 10,
                out@ == with_registers(start, self@, i as int),
                forall|k: int| 0 <= k < 10 ==> (#[trigger] registers@[k]).spec_index() == k,
            decreases 10 - i,
        {
            out.append(register_label_text(registers[i]));
            out.append(": ");
            push_hex(out, self.registers[i] as usize, 4, false);
            out.append(
                if i == 4 {
                    "              │\n│ "
                } else {
                    " "
                },
            );
            i += 1;
        }
        out.append("             │\n");
        push_rule(out, "├", "┤\n");
    }

    /// Append the part for the stack: see [`with_stack_part`].
    pub fn push_stack_part(&self, out: &mut String)
        ensures
            final(out)@ == with_stack_part(old(out)@, self@),
    {
        let depth = self.stack.len();
        out.append("│ Stack (Size: ");
        push_hex(out, depth, 4, false);
        out.append(")                                        │\n");
        if depth == 0 {
            out.append("│ <empty>                                                   │\n");
        } else {
            let ghost start = out@;
            let mut i: usize = 0;
            while i < depth
                invariant
                    i <= depth == self.stack@.len(),
                    out@ == with_slots(start, self@, i as int),
                decreases depth - i,
            {
                out.append(
                    if i == 0 {
                        "│ "
                    } else if i % 8 == 0 {
                        "                   │\n│ "
                    } else {
                        " "
                    },
                );
                push_hex(out, self.stack[i] as usize, 4, false);
                i += 1;
            }
            let last = (depth - 1) % 8 + 1;
            push_repeated(out, " ", 59 - 5 * last);
            out.append("│\n");
        }
        push_rule(out, "├", "┤\n");
    }

    /// Append the part for the memory: see [`with_ram_part`].
    pub fn push_ram_part(&self, out: &mut String)
        ensures
            final(out)@ == with_ram_part(old(out)@, self@),
    {
        out.append("│ RAM                                                       │\n");
        let ghost start = out@;
        let mut i: usize = 0;
        while i < 128
            invariant
                i <= 128,
                out@ == with_words(start, self@, i as int),
            decreases 128 - i,
        {
            if i % 8 == 0 {
                if i > 0 {
                    out.append("               │\n");
                }
                out.append("│ ");
                push_hex(out, i, 2, false);
                out.append(": ");
            } else {
                out.append(" ");
            }
            push_hex(out, self.ram[i] as usize, 4, false);
            i += 1;
        }
        out.append("               │\n");
        push_rule(out, "├", "┤\n");
    }

    /// Append the part for the pins: see [`with_pin_part`].
    pub fn push_pin_part(&self, out: &mut String)
        ensures
            final(out)@ == with_pin_part(old(out)@, self@),
    {
        out.append("│ I/O Pins                                                  │\n");
        out.append("│ Analog:  ");
        let ghost start = out@;
        let mut i: usize = 0;
        while i < 4
            invariant
                i <= 4,
                out@ == with_channels(start, self@, i as int),
            decreases 4 - i,
        {
            out.append(
                if self.analog_pin_config[i] {
                    "I"
                } else {
                    "O"
                },
            );
            out.append(digit_text(i, false));
            out.append(":");
            push_hex(out, self.analog_pins[i] as usize, 4, false);
            out.append(" ");
            i += 1;
        }
        push_repeated(out, " ", 17);
        out.append("│\n│ Digital: ");
        let ghost start = out@;
        let mut i: usize = 0;
        while i < 8
            invariant
                i <= 8,
                out@ == with_lines(start, self@, i as int),
            decreases 8 - i,
        {
            out.append(
                if self.digital_pin_config[i] {
                    "I"
                } else {
                    "O"
                },
            );
            out.append(digit_text(i, false));
            out.append(
                if self.digital_pins[i] {
                    ":1 "
                } else {
                    ":0 "
                },
            );
            i += 1;
        }
        push_repeated(out, " ", 9);
        out.append("│\n");
        push_rule(out, "└", "┘\n");
    }
}

} // verus!
