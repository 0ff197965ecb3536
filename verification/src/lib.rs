//! A cycle-accurate virtual machine for a small 16-bit traffic processing
//! unit (TPU), together with the assembler front end for its language, RGAL.
//!
//! * [`shared`] holds the instruction set and the result types.
//! * [`text`] writes registers, operands and mnemonics as text.
//! * [`rgal`] turns assembly text into instructions.
//! * [`tpu`] is the machine: its state, the decoder, the instruction bodies
//!   and the fetch / wait / execute engine.
pub mod rgal;
pub mod shared;
pub mod text;
pub mod tpu;
