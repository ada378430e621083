//! The executable processor. Every method is proved to follow the transition
//! function of the same name on the ghost state in `model`.

use vstd::prelude::*;

use crate::model::zn;
use crate::model::CpuV;
use crate::model::StepResult;
use crate::model::FLAG_NEG;
use crate::model::FLAG_ZERO;
use crate::model::MEM_LEN;
use crate::model::OP_BRK;
use crate::model::OP_DEX;
use crate::model::OP_DEY;
use crate::model::OP_INX;
use crate::model::OP_INY;
use crate::model::OP_JSR_ABS;
use crate::model::OP_LDA_IMM;
use crate::model::OP_LDX_IMM;
use crate::model::OP_LDY_IMM;
use crate::model::OP_RTS;
use crate::model::OP_TAX;
use crate::model::OP_TAY;
use crate::model::OP_TXA;
use crate::model::OP_TYA;
use crate::model::RESET_VECTOR;
use crate::model::STACK_PAGE;

verus! {

/// The processor: the register file and the 64 KiB memory image it owns.
pub struct Cpu {
    /// Accumulator.
    pub a: u8,
    /// X index register.
    pub x: u8,
    /// Y index register.
    pub y: u8,
    /// Program counter: the address of the next byte to fetch.
    pub pc: u16,
    /// Status register.
    pub p: u8,
    /// Stack pointer: an offset into the stack page.
    pub sp: u8,
    /// The flat memory image; always `MEM_LEN` cells long.
    pub mem: Vec<u8>,
}

impl View for Cpu {
    type V = CpuV;

    open spec fn view(&self) -> CpuV {
        CpuV {
            a: self.a,
            x: self.x,
            y: self.y,
            pc: self.pc,
            p: self.p,
            sp: self.sp,
            mem: self.mem@,
        }
    }
}

impl Cpu {
    /// The memory image spans the full address space, so that every 16-bit
    /// address denotes a cell.
    pub open spec fn wf(&self) -> bool {
        self@.wf()
    }

    /// A processor at its power-on register values, with memory all zero.
    pub fn new() -> (c: Cpu)
        ensures
            c.wf(),
            c@.a == 0,
            c@.x == 0,
            c@.y == 0,
            c@.pc == 0,
            c@.sp == 0xFD,
            c@.p == 0x24,
            forall|i: int| 0 <= i < MEM_LEN ==> c@.mem[i] == 0u8,
    {
        let mut mem: Vec<u8> = Vec::new();
        while mem.len() < MEM_LEN
            invariant
                mem@.len() <= MEM_LEN,
                forall|i: int| 0 <= i < mem@.len() ==> mem@[i] == 0u8,
            decreases MEM_LEN - mem@.len(),
        {
            mem.push(0);
        }
        Cpu { a: 0, x: 0, y: 0, pc: 0, p: 0x24, sp: 0xFD, mem }
    }

    /// The byte held at `addr`.
    pub fn read(&self, addr: u16) -> (b: u8)
        requires
            self.wf(),
        ensures
            b == self@.read(addr),
    {
        self.mem[addr as usize]
    }

    /// Stores `data` at `addr`; nothing else changes.
    pub fn write(&mut self, addr: u16, data: u8)
        requires
            old(self).wf(),
        ensures
            final(self).wf(),
            final(self)@ == old(self)@.write(addr, data),
    {
        self.mem[addr as usize] = data;
    }

    /// The little-endian 16-bit value whose low byte sits at `addr` and whose
    /// high byte sits at the wrapping successor of `addr`.
    pub fn read_word(&self, addr: u16) -> (w: u16)
        requires
            self.wf(),
        ensures
            w == self@.read_word(addr),
    {
        let lo = self.read(addr) as u16;
        let hi = self.read(addr.wrapping_add(1)) as u16;
        lo | (hi << 8)
    }

    /// The address in the stack page selected by the stack pointer.
    pub fn stack_addr(&self) -> (addr: u16)
        ensures
            addr == self@.stack_addr(),
    {
        STACK_PAGE | (self.sp as u16)
    }

    /// Fetches the byte at the program counter, then advances the counter by
    /// one, wrapping. This is the sole way the counter advances during
    /// instruction decoding.
    pub fn fetch_byte(&mut self) -> (b: u8)
        requires
            old(self).wf(),
        ensures
            final(self).wf(),
            final(self)@ == old(self)@.fetch_byte().0,
            b == old(self)@.fetch_byte().1,
    {
        let b = self.read(self.pc);
        self.pc = self.pc.wrapping_add(1);
        b
    }

    /// Fetches a little-endian word from the instruction stream: two byte
    /// fetches, low byte first, advancing the counter by two in total.
    pub fn fetch_word(&mut self) -> (w: u16)
        requires
            old(self).wf(),
        ensures
            final(self).wf(),
            final(self)@ == old(self)@.fetch_word().0,
            w == old(self)@.fetch_word().1,
    {
        let lo = self.fetch_byte();
        let hi = self.fetch_byte();
        (lo as u16) | ((hi as u16) << 8)
    }

    /// Pushes one byte: stores it at the current stack address, then
    /// decrements the stack pointer, wrapping within the page.
    pub fn push_byte(&mut self, v: u8)
        requires
            old(self).wf(),
        ensures
            final(self).wf(),
            final(self)@ == old(self)@.push_byte(v),
    {
        let addr = self.stack_addr();
        self.write(addr, v);
        self.sp = self.sp.wrapping_sub(1);
    }

    /// Pops one byte: increments the stack pointer, wrapping, then reads at
    /// the resulting stack address.
    pub fn pop_byte(&mut self) -> (b: u8)
        requires
            old(self).wf(),
        ensures
            final(self).wf(),
            final(self)@ == old(self)@.pop_byte().0,
            b == old(self)@.pop_byte().1,
    {
        self.sp = self.sp.wrapping_add(1);
        let addr = self.stack_addr();
        self.read(addr)
    }

    /// Pushes a 16-bit value: high byte first, then low byte, so that a
    /// matching pop reconstructs it low byte first.
    pub fn push_word(&mut self, v: u16)
        requires
            old(self).wf(),
        ensures
            final(self).wf(),
            final(self)@ == old(self)@.push_word(v),
    {
        let hi = (v >> 8) as u8;
        let lo = (v & 0x00FF) as u8;
        self.push_byte(hi);
        self.push_byte(lo);
    }

    /// Pops a 16-bit value: low byte first, then high byte.
    pub fn pop_word(&mut self) -> (w: u16)
        requires
            old(self).wf(),
        ensures
            final(self).wf(),
            final(self)@ == old(self)@.pop_word().0,
            w == old(self)@.pop_word().1,
    {
        let lo = self.pop_byte() as u16;
        let hi = self.pop_byte() as u16;
        lo | (hi << 8)
    }

    /// Recomputes the Zero and Negative flags from the result byte `val`;
    /// every other bit of the status register is kept.
    pub fn set_zn(&mut self, val: u8)
        ensures
            final(self)@ == (CpuV { p: zn(old(self)@.p, val), ..old(self)@ }),
    {
        let mut p = self.p & !(FLAG_ZERO | FLAG_NEG);
        if val == 0 {
            p = p | FLAG_ZERO;
        }
        if val & 0x80 != 0 {
            p = p | FLAG_NEG;
        }
        self.p = p;
    }

    /// Executes one instruction: fetches the opcode byte, dispatches on it,
    /// and performs its register, memory, stack and flag effects. Returns
    /// whether execution may continue, has halted, or has hit an unknown
    /// opcode; in the last case the whole state is left as it was.
    pub fn step(&mut self) -> (r: StepResult)
        requires
            old(self).wf(),
        ensures
            final(self).wf(),
            final(self)@ == old(self)@.step().0,
            r == old(self)@.step().1,
    {
        let opcode_pc = self.pc;
        let opcode = self.fetch_byte();

        match opcode {
            OP_LDA_IMM => {
                let value = self.fetch_byte();
                self.a = value;
                self.set_zn(value);
                StepResult::Continue
            }
            OP_LDX_IMM => {
                let value = self.fetch_byte();
                self.x = value;
                self.set_zn(value);
                StepResult::Continue
            }
            OP_LDY_IMM => {
                let value = self.fetch_byte();
                self.y = value;
                self.set_zn(value);
                StepResult::Continue
            }
            OP_TAX => {
                let value = self.a;
                self.x = value;
                self.set_zn(value);
                StepResult::Continue
            }
            OP_TXA => {
                let value = self.x;
                self.a = value;
                self.set_zn(value);
                StepResult::Continue
            }
            OP_TAY => {
                let value = self.a;
                self.y = value;
                self.set_zn(value);
                StepResult::Continue
            }
            OP_TYA => {
                let value = self.y;
                self.a = value;
                self.set_zn(value);
                StepResult::Continue
            }
            OP_INX => {
                let value = self.x.wrapping_add(1);
                self.x = value;
                self.set_zn(value);
                StepResult::Continue
            }
            OP_DEX => {
                let value = self.x.wrapping_sub(1);
                self.x = value;
                self.set_zn(value);
                StepResult::Continue
            }
            OP_INY => {
                let value = self.y.wrapping_add(1);
                self.y = value;
                self.set_zn(value);
                StepResult::Continue
            }
            OP_DEY => {
                let value = self.y.wrapping_sub(1);
                self.y = value;
                self.set_zn(value);
                StepResult::Continue
            }
            OP_JSR_ABS => {
                let target = self.fetch_word();
                let ret = self.pc.wrapping_sub(1);
                self.push_word(ret);
                self.pc = target;
                StepResult::Continue
            }
            OP_RTS => {
                let ret = self.pop_word();
                self.pc = ret.wrapping_add(1);
                StepResult::Continue
            }
            OP_BRK => StepResult::Halt,
            _ => {
                self.pc = opcode_pc;
                StepResult::Fault { opcode, addr: opcode_pc }
            }
        }
    }

    /// Brings the processor to its defined starting state: registers
    /// cleared, stack pointer and status at their power-on values, and the
    /// program counter seeded from the reset vector, which the driver must
    /// have written beforehand.
    pub fn reset(&mut self)
        requires
            old(self).wf(),
        ensures
            final(self).wf(),
            final(self)@ == old(self)@.reset(),
    {
        self.a = 0;
        self.x = 0;
        self.y = 0;
        self.sp = 0xFD;
        self.p = 0x24;
        self.pc = self.read_word(RESET_VECTOR);
    }
}

} // verus!
