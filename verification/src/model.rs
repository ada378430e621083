//! The mathematical model of the processor: a ghost record of the register
//! file together with the memory image as a sequence, and a transition
//! function for every primitive (fetch, stack, flags) and for one full
//! instruction step. The executable processor in `cpu` is proved to follow
//! this model exactly.

use vstd::prelude::*;

verus! {

/// Number of cells in the flat memory image: one per 16-bit address.
pub const MEM_LEN: usize = 0x10000;

/// Base address of the fixed 256-byte stack page.
pub const STACK_PAGE: u16 = 0x0100;

/// Address of the low byte of the reset vector.
pub const RESET_VECTOR: u16 = 0xFFFC;

/// Status-register bit recording that the last result was zero.
pub const FLAG_ZERO: u8 = 0x02;

/// Status-register bit recording that bit 7 of the last result was set.
pub const FLAG_NEG: u8 = 0x80;

/// Load accumulator with an immediate operand.
pub const OP_LDA_IMM: u8 = 0xA9;

/// Load X with an immediate operand.
pub const OP_LDX_IMM: u8 = 0xA2;

/// Load Y with an immediate operand.
pub const OP_LDY_IMM: u8 = 0xA0;

/// Transfer accumulator to X.
pub const OP_TAX: u8 = 0xAA;

/// Transfer X to accumulator.
pub const OP_TXA: u8 = 0x8A;

/// Transfer accumulator to Y.
pub const OP_TAY: u8 = 0xA8;

/// Transfer Y to accumulator.
pub const OP_TYA: u8 = 0x98;

/// Increment X, wrapping.
pub const OP_INX: u8 = 0xE8;

/// Decrement X, wrapping.
pub const OP_DEX: u8 = 0xCA;

/// Increment Y, wrapping.
pub const OP_INY: u8 = 0xC8;

/// Decrement Y, wrapping.
pub const OP_DEY: u8 = 0x88;

/// Jump to subroutine at an absolute address held in the instruction stream.
pub const OP_JSR_ABS: u8 = 0x20;

/// Return from subroutine.
pub const OP_RTS: u8 = 0x60;

/// Halt execution.
pub const OP_BRK: u8 = 0x00;

/// Outcome of executing one instruction.
#[derive(Clone, Copy, Debug, PartialEq, Eq, Structural)]
pub enum StepResult {
    /// The instruction completed and execution may continue.
    Continue,
    /// A halt instruction was executed; the program is finished.
    Halt,
    /// The byte fetched at `addr` is no opcode of the instruction set.
    /// This is fatal: the processor state is left exactly as it was.
    Fault { opcode: u8, addr: u16 },
}

/// The little-endian 16-bit value formed from a low and a high byte.
pub open spec fn word(lo: u8, hi: u8) -> u16 {
    (lo as u16) | ((hi as u16) << 8)
}

/// The low byte of a 16-bit value.
pub open spec fn lo_byte(w: u16) -> u8 {
    (w & 0x00FF) as u8
}

/// The high byte of a 16-bit value.
pub open spec fn hi_byte(w: u16) -> u8 {
    (w >> 8) as u8
}

/// The status byte after recording result byte `v`: the Zero and Negative
/// bits are recomputed from `v`, every other bit of `p` is kept.
pub open spec fn zn(p: u8, v: u8) -> u8 {
    let cleared = p & !(FLAG_ZERO | FLAG_NEG);
    let with_z = if v == 0 {
        cleared | FLAG_ZERO
    } else {
        cleared
    };
    if v & 0x80 != 0 {
        with_z | FLAG_NEG
    } else {
        with_z
    }
}

/// Whether the status bits selected by `mask` are set in `p`.
pub open spec fn flag_set(p: u8, mask: u8) -> bool {
    p & mask != 0
}

/// Ghost state of the processor: the register file and the memory image.
#[verifier::ext_equal]
pub ghost struct CpuV {
    /// Accumulator.
    pub a: u8,
    /// X index register.
    pub x: u8,
    /// Y index register.
    pub y: u8,
    /// Program counter: the address of the next byte to fetch.
    pub pc: u16,
    /// Status register.
    pub p: u8,
    /// Stack pointer: an offset into the stack page.
    pub sp: u8,
    /// The flat memory image.
    pub mem: Seq<u8>,
}

impl CpuV {
    /// The memory image always spans the full 16-bit address space.
    pub open spec fn wf(self) -> bool {
        self.mem.len() == MEM_LEN
    }

    /// The byte held at `addr`.
    pub open spec fn read(self, addr: u16) -> u8 {
        self.mem[addr as int]
    }

    /// The state with `data` stored at `addr`.
    pub open spec fn write(self, addr: u16, data: u8) -> CpuV {
        CpuV { mem: self.mem.update(addr as int, data), ..self }
    }

    /// The little-endian word read from `addr` and its wrapping successor.
    pub open spec fn read_word(self, addr: u16) -> u16 {
        word(self.read(addr), self.read(addr.wrapping_add(1)))
    }

    /// The address in the stack page selected by the stack pointer.
    pub open spec fn stack_addr(self) -> u16 {
        STACK_PAGE | (self.sp as u16)
    }

    /// Fetching one byte: the byte at the program counter, which advances by
    /// one, wrapping.
    pub open spec fn fetch_byte(self) -> (CpuV, u8) {
        (CpuV { pc: self.pc.wrapping_add(1), ..self }, self.read(self.pc))
    }

    /// Fetching a little-endian word: two byte fetches, low byte first.
    pub open spec fn fetch_word(self) -> (CpuV, u16) {
        let (s1, lo) = self.fetch_byte();
        let (s2, hi) = s1.fetch_byte();
        (s2, word(lo, hi))
    }

    /// Pushing one byte: store at the current stack address, then decrement
    /// the stack pointer, wrapping within the page.
    pub open spec fn push_byte(self, v: u8) -> CpuV {
        let s = self.write(self.stack_addr(), v);
        CpuV { sp: self.sp.wrapping_sub(1), ..s }
    }

    /// Popping one byte: increment the stack pointer, wrapping, then read at
    /// the resulting stack address.
    pub open spec fn pop_byte(self) -> (CpuV, u8) {
        let s = CpuV { sp: self.sp.wrapping_add(1), ..self };
        (s, s.read(s.stack_addr()))
    }

    /// Pushing a word: high byte first, then low byte.
    pub open spec fn push_word(self, v: u16) -> CpuV {
        self.push_byte(hi_byte(v)).push_byte(lo_byte(v))
    }

    /// Popping a word: low byte first, then high byte.
    pub open spec fn pop_word(self) -> (CpuV, u16) {
        let (s1, lo) = self.pop_byte();
        let (s2, hi) = s1.pop_byte();
        (s2, word(lo, hi))
    }

    /// Loading the accumulator with `v`: the Zero and Negative flags are
    /// recomputed from `v`.
    pub open spec fn set_a(self, v: u8) -> CpuV {
        CpuV { a: v, p: zn(self.p, v), ..self }
    }

    /// Loading X with `v`, recomputing the flags.
    pub open spec fn set_x(self, v: u8) -> CpuV {
        CpuV { x: v, p: zn(self.p, v), ..self }
    }

    /// Loading Y with `v`, recomputing the flags.
    pub open spec fn set_y(self, v: u8) -> CpuV {
        CpuV { y: v, p: zn(self.p, v), ..self }
    }

    /// One instruction: fetch the opcode byte, dispatch on it, and yield the
    /// next state together with the outcome. An unknown opcode is a fault and
    /// leaves the state unchanged, the program counter included.
    pub open spec fn step(self) -> (CpuV, StepResult) {
        let (s1, opcode) = self.fetch_byte();
        if opcode == OP_LDA_IMM {
            let (s2, v) = s1.fetch_byte();
            (s2.set_a(v), StepResult::Continue)
        } else if opcode == OP_LDX_IMM {
            let (s2, v) = s1.fetch_byte();
            (s2.set_x(v), StepResult::Continue)
        } else if opcode == OP_LDY_IMM {
            let (s2, v) = s1.fetch_byte();
            (s2.set_y(v), StepResult::Continue)
        } else if opcode == OP_TAX {
            (s1.set_x(s1.a), StepResult::Continue)
        } else if opcode == OP_TXA {
            (s1.set_a(s1.x), StepResult::Continue)
        } else if opcode == OP_TAY {
            (s1.set_y(s1.a), StepResult::Continue)
        } else if opcode == OP_TYA {
            (s1.set_a(s1.y), StepResult::Continue)
        } else if opcode == OP_INX {
            (s1.set_x(s1.x.wrapping_add(1)), StepResult::Continue)
        } else if opcode == OP_DEX {
            (s1.set_x(s1.x.wrapping_sub(1)), StepResult::Continue)
        } else if opcode == OP_INY {
            (s1.set_y(s1.y.wrapping_add(1)), StepResult::Continue)
        } else if opcode == OP_DEY {
            (s1.set_y(s1.y.wrapping_sub(1)), StepResult::Continue)
        } else if opcode == OP_JSR_ABS {
            let (s2, target) = s1.fetch_word();
            let s3 = s2.push_word(s2.pc.wrapping_sub(1));
            (CpuV { pc: target, ..s3 }, StepResult::Continue)
        } else if opcode == OP_RTS {
            let (s2, ret) = s1.pop_word();
            (CpuV { pc: ret.wrapping_add(1), ..s2 }, StepResult::Continue)
        } else if opcode == OP_BRK {
            (s1, StepResult::Halt)
        } else {
            (self, StepResult::Fault { opcode, addr: self.pc })
        }
    }

    /// The state after a reset: registers cleared, stack pointer and status
    /// at their power-on values, and the program counter seeded from the
    /// reset vector. Memory is untouched.
    pub open spec fn reset(self) -> CpuV {
        CpuV {
            a: 0,
            x: 0,
            y: 0,
            sp: 0xFD,
            p: 0x24,
            pc: self.read_word(RESET_VECTOR),
            ..self
        }
    }
}

} // verus!
