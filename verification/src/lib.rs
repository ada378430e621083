//! An interpreter for a small, 8-bit accumulator-based instruction set in the
//! style of the MOS 6502: a 64 KiB flat memory image, three general-purpose
//! registers, a downward-growing stack in a fixed page, and a closed opcode
//! table covering immediate loads, register transfers, increments and
//! decrements, subroutine call/return, and halt.
//!
//! `model` holds the mathematical transition function, `cpu` the executable
//! processor proved against it, and `laws` the theorems that relate several
//! operations (stack and subroutine round trips, wrapping of the counters).

pub mod cpu;
pub mod laws;
pub mod model;
