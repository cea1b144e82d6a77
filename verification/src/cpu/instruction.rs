//! Instructions: their decoded form and the decoder.

use super::machine::{Machine, FLAG_REGISTER};
use super::{Status, CPU};
use crate::mmu::MEMORY_SIZE;
use vstd::pervasive::unreached;
use vstd::prelude::*;

verus! {

/// The operation of an instruction.
#[derive(Debug, Clone, Copy, PartialEq, Eq, Structural)]
pub enum Opcode {
    CLS,
    RET,
    SYS,
    JP,
    CALL,
    SE,
    LD,
    ADD,
    OR,
    AND,
    XOR,
    SUB,
    SHR,
    SUBN,
    SHL,
    SNE,
    RND,
    DRW,
    SKP,
    SKNP,
}

/// The operands of an instruction. `x` and `y` are register indices.
#[derive(Debug, Clone, Copy, PartialEq, Eq, Structural)]
pub enum AddressingMode {
    /// No operand.
    Implicit,
    /// A 12-bit address.
    Addr(u16),
    /// Register `x`.
    Vx(usize),
    /// Register `x` and an immediate byte.
    VxImediate(usize, u8),
    /// Register `x` as destination, the delay timer as source.
    VxDT(usize),
    /// Register `x` as destination, the next key press as source.
    VxKey(usize),
    /// Registers `0..=x` as destination, memory at the index register as source.
    VxMem(usize),
    /// Registers `x` and `y`.
    VxVy(usize, usize),
    /// Registers `x` and `y` and a 4-bit immediate.
    VxVyImediate(usize, usize, u8),
    /// A 12-bit address, to which register 0 is added.
    V0Addr(u16),
    /// The index register as destination, a 12-bit address as source.
    IAddr(u16),
    /// The index register as destination, register `x` as source.
    IVx(usize),
    /// The index register as destination, the glyph for the digit in register `x` as
    /// source.
    FVx(usize),
    /// Memory at the index register as destination, the decimal digits of register `x`
    /// as source.
    BVx(usize),
    /// Memory at the index register as destination, registers `0..=x` as source.
    MemVx(usize),
    /// The delay timer as destination, register `x` as source.
    DTVx(usize),
    /// The sound timer as destination, register `x` as source.
    STVx(usize),
}

/// A decoded instruction.
#[derive(Debug, Clone, Copy, PartialEq, Eq, Structural)]
pub struct Instruction(pub Opcode, pub AddressingMode);

impl AddressingMode {
    /// Every register index is below 16.
    pub open spec fn wf(self) -> bool {
        match self {
            AddressingMode::Implicit => true,
            AddressingMode::Addr(_) => true,
            AddressingMode::Vx(x) => x < 16,
            AddressingMode::VxImediate(x, _) => x < 16,
            AddressingMode::VxDT(x) => x < 16,
            AddressingMode::VxKey(x) => x < 16,
            AddressingMode::VxMem(x) => x < 16,
            AddressingMode::VxVy(x, y) => x < 16 && y < 16,
            AddressingMode::VxVyImediate(x, y, _) => x < 16 && y < 16,
            AddressingMode::V0Addr(_) => true,
            AddressingMode::IAddr(_) => true,
            AddressingMode::IVx(x) => x < 16,
            AddressingMode::FVx(x) => x < 16,
            AddressingMode::BVx(x) => x < 16,
            AddressingMode::MemVx(x) => x < 16,
            AddressingMode::DTVx(x) => x < 16,
            AddressingMode::STVx(x) => x < 16,
        }
    }
}

impl AddressingMode {
    /// Whether every register index is below 16.
    pub fn registers_exist(&self) -> (ok: bool)
        ensures
            ok == self.wf(),
    {
        match *self {
            AddressingMode::Implicit => true,
            AddressingMode::Addr(_) => true,
            AddressingMode::Vx(x) => x < 16,
            AddressingMode::VxImediate(x, _) => x < 16,
            AddressingMode::VxDT(x) => x < 16,
            AddressingMode::VxKey(x) => x < 16,
            AddressingMode::VxMem(x) => x < 16,
            AddressingMode::VxVy(x, y) => x < 16 && y < 16,
            AddressingMode::VxVyImediate(x, y, _) => x < 16 && y < 16,
            AddressingMode::V0Addr(_) => true,
            AddressingMode::IAddr(_) => true,
            AddressingMode::IVx(x) => x < 16,
            AddressingMode::FVx(x) => x < 16,
            AddressingMode::BVx(x) => x < 16,
            AddressingMode::MemVx(x) => x < 16,
            AddressingMode::DTVx(x) => x < 16,
            AddressingMode::STVx(x) => x < 16,
        }
    }
}

impl Instruction {
    /// The instruction that a 16-bit word encodes, if it encodes one.
    ///
    /// With the word written as four hexadecimal digits, `x` is the second digit, `y` the
    /// third, `n` the fourth, `kk` the low byte and `nnn` the low twelve bits.
    pub open spec fn decoded(opcode: u16) -> Option<Instruction> {
        let x = (opcode / 0x100 % 0x10) as usize;
        let y = (opcode / 0x10 % 0x10) as usize;
        let n = (opcode % 0x10) as u8;
        let kk = (opcode % 0x100) as u8;
        let nnn = opcode % 0x1000;
        let vx_vy = AddressingMode::VxVy(x, y);
        let vx_kk = AddressingMode::VxImediate(x, kk);
        match opcode / 0x1000 {
            0x0 => if opcode == 0x00E0 {
                Some(Instruction(Opcode::CLS, AddressingMode::Implicit))
            } else if opcode == 0x00EE {
                Some(Instruction(Opcode::RET, AddressingMode::Implicit))
            } else {
                Some(Instruction(Opcode::SYS, AddressingMode::Addr(nnn)))
            },
            0x1 => Some(Instruction(Opcode::JP, AddressingMode::Addr(nnn))),
            0x2 => Some(Instruction(Opcode::CALL, AddressingMode::Addr(nnn))),
            0x3 => Some(Instruction(Opcode::SE, vx_kk)),
            0x4 => Some(Instruction(Opcode::SNE, vx_kk)),
            0x5 => if n == 0 {
                Some(Instruction(Opcode::SE, vx_vy))
            } else {
                None
            },
            0x6 => Some(Instruction(Opcode::LD, vx_kk)),
            0x7 => Some(Instruction(Opcode::ADD, vx_kk)),
            0x8 => match n {
                0x0 => Some(Instruction(Opcode::LD, vx_vy)),
                0x1 => Some(Instruction(Opcode::OR, vx_vy)),
                0x2 => Some(Instruction(Opcode::AND, vx_vy)),
                0x3 => Some(Instruction(Opcode::XOR, vx_vy)),
                0x4 => Some(Instruction(Opcode::ADD, vx_vy)),
                0x5 => Some(Instruction(Opcode::SUB, vx_vy)),
                0x6 => Some(Instruction(Opcode::SHR, vx_vy)),
                0x7 => Some(Instruction(Opcode::SUBN, vx_vy)),
                0xE => Some(Instruction(Opcode::SHL, vx_vy)),
                _ => None,
            },
            0x9 => if n == 0 {
                Some(Instruction(Opcode::SNE, vx_vy))
            } else {
                None
            },
            0xA => Some(Instruction(Opcode::LD, AddressingMode::IAddr(nnn))),
            0xB => Some(Instruction(Opcode::JP, AddressingMode::V0Addr(nnn))),
            0xC => Some(Instruction(Opcode::RND, vx_kk)),
            0xD => Some(Instruction(Opcode::DRW, AddressingMode::VxVyImediate(x, y, n))),
            0xE => match kk {
                0x9E => Some(Instruction(Opcode::SKP, AddressingMode::Vx(x))),
                0xA1 => Some(Instruction(Opcode::SKNP, AddressingMode::Vx(x))),
                _ => None,
            },
            _ => match kk {
                0x07 => Some(Instruction(Opcode::LD, AddressingMode::VxDT(x))),
                0x0A => Some(Instruction(Opcode::LD, AddressingMode::VxKey(x))),
                0x15 => Some(Instruction(Opcode::LD, AddressingMode::DTVx(x))),
                0x18 => Some(Instruction(Opcode::LD, AddressingMode::STVx(x))),
                0x1E => Some(Instruction(Opcode::ADD, AddressingMode::IVx(x))),
                0x29 => Some(Instruction(Opcode::LD, AddressingMode::FVx(x))),
                0x33 => Some(Instruction(Opcode::LD, AddressingMode::BVx(x))),
                0x55 => Some(Instruction(Opcode::LD, AddressingMode::MemVx(x))),
                0x65 => Some(Instruction(Opcode::LD, AddressingMode::VxMem(x))),
                _ => None,
            },
        }
    }

    /// The word that encodes this instruction, if it is one that the decoder yields.
    pub open spec fn encoded(self) -> u16 {
        let page: int = match self.0 {
            Opcode::CLS => 0x0,
            Opcode::RET => 0x0,
            Opcode::SYS => 0x0,
            Opcode::CALL => 0x2,
            Opcode::RND => 0xC,
            Opcode::DRW => 0xD,
            Opcode::SKP => 0xE,
            Opcode::SKNP => 0xE,
            Opcode::JP => if self.1 is V0Addr { 0xB } else { 0x1 },
            Opcode::SE => if self.1 is VxVy { 0x5 } else { 0x3 },
            Opcode::SNE => if self.1 is VxVy { 0x9 } else { 0x4 },
            Opcode::LD => match self.1 {
                AddressingMode::VxImediate(_, _) => 0x6,
                AddressingMode::VxVy(_, _) => 0x8,
                AddressingMode::IAddr(_) => 0xA,
                _ => 0xF,
            },
            Opcode::ADD => match self.1 {
                AddressingMode::VxImediate(_, _) => 0x7,
                AddressingMode::VxVy(_, _) => 0x8,
                _ => 0xF,
            },
            _ => 0x8,
        };
        let low: int = match self.1 {
            AddressingMode::Implicit => if self.0 is CLS { 0x0E0 } else { 0x0EE },
            AddressingMode::Addr(addr) => addr as int,
            AddressingMode::V0Addr(addr) => addr as int,
            AddressingMode::IAddr(addr) => addr as int,
            AddressingMode::VxImediate(x, kk) => x * 0x100 + kk,
            AddressingMode::VxVyImediate(x, y, n) => x * 0x100 + y * 0x10 + n,
            AddressingMode::VxVy(x, y) => x * 0x100 + y * 0x10 + match self.0 {
                Opcode::OR => 0x1int,
                Opcode::AND => 0x2,
                Opcode::XOR => 0x3,
                Opcode::ADD => 0x4,
                Opcode::SUB => 0x5,
                Opcode::SHR => 0x6,
                Opcode::SUBN => 0x7,
                Opcode::SHL => 0xE,
                _ => 0x0,
            },
            AddressingMode::Vx(x) => x * 0x100 + if self.0 is SKP { 0x9Eint } else { 0xA1 },
            AddressingMode::VxDT(x) => x * 0x100 + 0x07,
            AddressingMode::VxKey(x) => x * 0x100 + 0x0A,
            AddressingMode::DTVx(x) => x * 0x100 + 0x15,
            AddressingMode::STVx(x) => x * 0x100 + 0x18,
            AddressingMode::IVx(x) => x * 0x100 + 0x1E,
            AddressingMode::FVx(x) => x * 0x100 + 0x29,
            AddressingMode::BVx(x) => x * 0x100 + 0x33,
            AddressingMode::MemVx(x) => x * 0x100 + 0x55,
            AddressingMode::VxMem(x) => x * 0x100 + 0x65,
        };
        (page * 0x1000 + low) as u16
    }

    /// Decodes a 16-bit word. The result is `None` exactly for the words that encode no
    /// instruction.
    pub fn decode(opcode: u16) -> (instruction: Option<Instruction>)
        ensures
            instruction == Self::decoded(opcode),
    {
        let opcode_nibbles = (
            ((opcode >> 0xC) & 0xF) as u8,
            ((opcode >> 0x8) & 0xF) as usize,
            ((opcode >> 0x4) & 0xF) as usize,
            (opcode & 0xF) as u8,
        );
        let kk = (opcode & 0xFF) as u8;
        let nnn = opcode & 0xFFF;
        assert({
            &&& (opcode >> 0xC) & 0xF == opcode / 0x1000
            &&& (opcode >> 0x8) & 0xF == opcode / 0x100 % 0x10
            &&& (opcode >> 0x4) & 0xF == opcode / 0x10 % 0x10
            &&& opcode & 0xF == opcode % 0x10
            &&& opcode & 0xFF == opcode % 0x100
            &&& opcode & 0xFFF == opcode % 0x1000
        }) by (bit_vector);

        match opcode_nibbles {
            (0x0, 0x0, 0xE, 0x0) => Some(Instruction(Opcode::CLS, AddressingMode::Implicit)),
            (0x0, 0x0, 0xE, 0xE) => Some(Instruction(Opcode::RET, AddressingMode::Implicit)),
            (0x0, _, _, _) => Some(Instruction(Opcode::SYS, AddressingMode::Addr(nnn))),
            (0x1, _, _, _) => Some(Instruction(Opcode::JP, AddressingMode::Addr(nnn))),
            (0x2, _, _, _) => Some(Instruction(Opcode::CALL, AddressingMode::Addr(nnn))),
            (0x3, x, _, _) => Some(Instruction(Opcode::SE, AddressingMode::VxImediate(x, kk))),
            (0x4, x, _, _) => Some(Instruction(Opcode::SNE, AddressingMode::VxImediate(x, kk))),
            (0x5, x, y, 0x0) => Some(Instruction(Opcode::SE, AddressingMode::VxVy(x, y))),
            (0x6, x, _, _) => Some(Instruction(Opcode::LD, AddressingMode::VxImediate(x, kk))),
            (0x7, x, _, _) => Some(Instruction(Opcode::ADD, AddressingMode::VxImediate(x, kk))),
            (0x8, x, y, 0x0) => Some(Instruction(Opcode::LD, AddressingMode::VxVy(x, y))),
            (0x8, x, y, 0x1) => Some(Instruction(Opcode::OR, AddressingMode::VxVy(x, y))),
            (0x8, x, y, 0x2) => Some(Instruction(Opcode::AND, AddressingMode::VxVy(x, y))),
            (0x8, x, y, 0x3) => Some(Instruction(Opcode::XOR, AddressingMode::VxVy(x, y))),
            (0x8, x, y, 0x4) => Some(Instruction(Opcode::ADD, AddressingMode::VxVy(x, y))),
            (0x8, x, y, 0x5) => Some(Instruction(Opcode::SUB, AddressingMode::VxVy(x, y))),
            (0x8, x, y, 0x6) => Some(Instruction(Opcode::SHR, AddressingMode::VxVy(x, y))),
            (0x8, x, y, 0x7) => Some(Instruction(Opcode::SUBN, AddressingMode::VxVy(x, y))),
            (0x8, x, y, 0xE) => Some(Instruction(Opcode::SHL, AddressingMode::VxVy(x, y))),
            (0x9, x, y, 0x0) => Some(Instruction(Opcode::SNE, AddressingMode::VxVy(x, y))),
            (0xA, _, _, _) => Some(Instruction(Opcode::LD, AddressingMode::IAddr(nnn))),
            (0xB, _, _, _) => Some(Instruction(Opcode::JP, AddressingMode::V0Addr(nnn))),
            (0xC, x, _, _) => Some(Instruction(Opcode::RND, AddressingMode::VxImediate(x, kk))),
            (0xD, x, y, n) => Some(
                Instruction(Opcode::DRW, AddressingMode::VxVyImediate(x, y, n)),
            ),
            (0xE, x, 0x9, 0xE) => Some(Instruction(Opcode::SKP, AddressingMode::Vx(x))),
            (0xE, x, 0xA, 0x1) => Some(Instruction(Opcode::SKNP, AddressingMode::Vx(x))),
            (0xF, x, 0x0, 0x7) => Some(Instruction(Opcode::LD, AddressingMode::VxDT(x))),
            (0xF, x, 0x0, 0xA) => Some(Instruction(Opcode::LD, AddressingMode::VxKey(x))),
            (0xF, x, 0x1, 0x5) => Some(Instruction(Opcode::LD, AddressingMode::DTVx(x))),
            (0xF, x, 0x1, 0x8) => Some(Instruction(Opcode::LD, AddressingMode::STVx(x))),
            (0xF, x, 0x1, 0xE) => Some(Instruction(Opcode::ADD, AddressingMode::IVx(x))),
            (0xF, x, 0x2, 0x9) => Some(Instruction(Opcode::LD, AddressingMode::FVx(x))),
            (0xF, x, 0x3, 0x3) => Some(Instruction(Opcode::LD, AddressingMode::BVx(x))),
            (0xF, x, 0x5, 0x5) => Some(Instruction(Opcode::LD, AddressingMode::MemVx(x))),
            (0xF, x, 0x6, 0x5) => Some(Instruction(Opcode::LD, AddressingMode::VxMem(x))),
            _ => None,
        }
    }

    /// The instruction that `opcode` encodes. The word must encode one, which
    /// [`Instruction::decode`] tells.
    pub fn from(opcode: u16) -> (instruction: Instruction)
        requires
            Self::decoded(opcode) is Some,
        ensures
            Self::decoded(opcode) == Some(instruction),
    {
        Self::decode(opcode).unwrap()
    }
}

impl CPU {
    /// LD: load the content of a register or memory location into another.
    pub fn exec_ld(&mut self, addressing_mode: AddressingMode)
        requires
            old(self).wf(),
            old(self)@.accepts_ld(addressing_mode),
        ensures
            final(self).wf(),
            final(self)@ == old(self)@.after_ld(addressing_mode),
    {
        match addressing_mode {
            AddressingMode::VxImediate(x, kk) => {
                self.v[x] = kk;
            },
            AddressingMode::VxVy(x, y) => {
                let value = self.v[y];
                self.v[x] = value;
            },
            AddressingMode::IAddr(addr) => {
                self.i = addr;
            },
            AddressingMode::VxDT(x) => {
                self.v[x] = self.delay;
            },
            AddressingMode::VxKey(x) => {
                self.status = Status::WaitingKeypress(x);
            },
            AddressingMode::DTVx(x) => {
                self.delay = self.v[x];
            },
            AddressingMode::STVx(x) => {
                self.sound = self.v[x];
            },
            AddressingMode::FVx(x) => {
                self.i = (self.v[x] as u16) * 5;
            },
            AddressingMode::BVx(x) => {
                let i = self.i as usize;
                let value = self.v[x];
                self.bus.wb(i, value / 100);
                self.bus.wb(i + 1, (value % 100) / 10);
                self.bus.wb(i + 2, value % 10);
            },
            AddressingMode::MemVx(x) => {
                let mut rx: usize = 0;
                while rx <= x
                    invariant
                        rx <= x + 1,
                        x < 16,
                        self.i + x < MEMORY_SIZE,
                        self.wf(),
                        old(self)@.wf(),
                        self@ == (Machine {
                            bus: old(self)@.bus.store(
                                old(self)@.i as int,
                                old(self)@.v.take(rx as int),
                            ),
                            ..old(self)@
                        }),
                    decreases x + 1 - rx,
                {
                    let offset = self.i as usize + rx;
                    self.bus.wb(offset, self.v[rx]);
                    rx += 1;
                }
            },
            AddressingMode::VxMem(x) => {
                let mut rx: usize = 0;
                while rx <= x
                    invariant
                        rx <= x + 1,
                        x < 16,
                        self.i + x < MEMORY_SIZE,
                        self.wf(),
                        old(self)@.wf(),
                        self@ == (Machine {
                            v: Seq::new(
                                16,
                                |r: int|
                                    if r < rx {
                                        old(self)@.bus.bytes[old(self)@.i + r]
                                    } else {
                                        old(self)@.v[r]
                                    },
                            ),
                            ..old(self)@
                        }),
                    decreases x + 1 - rx,
                {
                    let offset = self.i as usize + rx;
                    self.v[rx] = self.bus.rb(offset);
                    rx += 1;
                }
            },
            _ => unreached(),
        }
    }

    /// DRW: draw a sprite into the framebuffer.
    pub fn exec_drw(&mut self, addressing_mode: AddressingMode)
        requires
            old(self).wf(),
            old(self)@.accepts_drw(addressing_mode),
        ensures
            final(self).wf(),
            final(self)@ == old(self)@.after_drw(addressing_mode),
    {
        match addressing_mode {
            AddressingMode::VxVyImediate(x, y, n) => {
                let (vx, vy) = (self.v[x], self.v[y]);
                let (x, y) = (vx as usize, vy as usize);
                let rows = n as usize;

                self.v[FLAG_REGISTER] = 0;

                let mut row: usize = 0;
                while row < rows
                    invariant
                        row <= rows,
                        rows == n,
                        x == vx,
                        y == vy,
                        n > 0 ==> self.i + n <= MEMORY_SIZE,
                        self.wf(),
                        old(self)@.wf(),
                        self@ == (Machine {
                            bus: old(self)@.drawn(vx, vy, 8 * row as nat).0,
                            ..old(self)@
                        }).with_flag(old(self)@.drawn(vx, vy, 8 * row as nat).1),
                    decreases rows - row,
                {
                    proof {
                        old(self)@.lemma_drawn_keeps_memory(vx, vy, 8 * row as nat);
                    }
                    let sprite_data = self.bus.rb(self.i as usize + row);

                    let mut bit: u8 = 0;
                    while bit < 8
                        invariant
                            bit <= 8,
                            row < rows,
                            rows == n,
                            x == vx,
                            y == vy,
                            self.wf(),
                            old(self)@.wf(),
                            sprite_data == old(self)@.bus.bytes[old(self)@.i + row],
                            self@ == (Machine {
                                bus: old(self)@.drawn(vx, vy, (8 * row + bit) as nat).0,
                                ..old(self)@
                            }).with_flag(old(self)@.drawn(vx, vy, (8 * row + bit) as nat).1),
                        decreases 8 - bit,
                    {
                        proof {
                            old(self)@.lemma_drawn_keeps_memory(vx, vy, (8 * row + bit) as nat);
                        }
                        if (sprite_data & (0x80u8 >> bit)) > 0 {
                            if self.bus.wb_vram((x + bit as usize) % 64, (y + row) % 32, 1) {
                                self.v[FLAG_REGISTER] = 1;
                            }
                        }
                        bit += 1;
                    }
                    row += 1;
                }
            },
            _ => unreached(),
        }
    }

    /// CLS: clear the screen.
    pub fn exec_cls(&mut self)
        requires
            old(self).wf(),
        ensures
            final(self).wf(),
            final(self)@ == old(self)@.after_cls(),
    {
        self.bus.clear_vram();
    }

    /// JP: jump to the given address.
    pub fn exec_jp(&mut self, addressing_mode: AddressingMode)
        requires
            old(self).wf(),
            old(self)@.accepts_jp(addressing_mode),
        ensures
            final(self).wf(),
            final(self)@ == old(self)@.after_jp(addressing_mode),
    {
        match addressing_mode {
            AddressingMode::Addr(addr) => {
                self.pc = addr;
            },
            AddressingMode::V0Addr(addr) => {
                self.pc = (self.v[0] as u16).wrapping_add(addr);
            },
            _ => unreached(),
        }
    }

    /// ADD: add a value to a register.
    pub fn exec_add(&mut self, addressing_mode: AddressingMode)
        requires
            old(self).wf(),
            old(self)@.accepts_add(addressing_mode),
        ensures
            final(self).wf(),
            final(self)@ == old(self)@.after_add(addressing_mode),
    {
        match addressing_mode {
            AddressingMode::VxImediate(x, kk) => {
                self.v[x] = self.v[x].wrapping_add(kk);
            },
            AddressingMode::VxVy(x, y) => {
                let (a, b) = (self.v[x], self.v[y]);
                let result = a.wrapping_add(b);
                let did_overflow = a > u8::MAX - b;

                self.v[x] = result;
                self.v[FLAG_REGISTER] = if did_overflow { 1 } else { 0 };
            },
            AddressingMode::IVx(x) => {
                self.i = self.i.wrapping_add(self.v[x] as u16);
            },
            _ => unreached(),
        }
    }

    /// SUB: subtract a register from a register.
    pub fn exec_sub(&mut self, addressing_mode: AddressingMode)
        requires
            old(self).wf(),
            old(self)@.accepts_vx_vy(addressing_mode),
        ensures
            final(self).wf(),
            final(self)@ == old(self)@.after_sub(addressing_mode),
    {
        match addressing_mode {
            AddressingMode::VxVy(x, y) => {
                let (a, b) = (self.v[x], self.v[y]);
                let result = a.wrapping_sub(b);
                let did_overflow = a < b;

                self.v[x] = result;
                self.v[FLAG_REGISTER] = if did_overflow { 1 } else { 0 };
            },
            _ => unreached(),
        }
    }

    /// OR: bitwise-or a register into a register.
    pub fn exec_or(&mut self, addressing_mode: AddressingMode)
        requires
            old(self).wf(),
            old(self)@.accepts_vx_vy(addressing_mode),
        ensures
            final(self).wf(),
            final(self)@ == old(self)@.after_or(addressing_mode),
    {
        match addressing_mode {
            AddressingMode::VxVy(x, y) => {
                self.v[x] = self.v[x] | self.v[y];
            },
            _ => unreached(),
        }
    }

    /// AND: bitwise-and a register into a register.
    pub fn exec_and(&mut self, addressing_mode: AddressingMode)
        requires
            old(self).wf(),
            old(self)@.accepts_vx_vy(addressing_mode),
        ensures
            final(self).wf(),
            final(self)@ == old(self)@.after_and(addressing_mode),
    {
        match addressing_mode {
            AddressingMode::VxVy(x, y) => {
                self.v[x] = self.v[x] & self.v[y];
            },
            _ => unreached(),
        }
    }

    /// XOR: bitwise-xor a register into a register.
    pub fn exec_xor(&mut self, addressing_mode: AddressingMode)
        requires
            old(self).wf(),
            old(self)@.accepts_vx_vy(addressing_mode),
        ensures
            final(self).wf(),
            final(self)@ == old(self)@.after_xor(addressing_mode),
    {
        match addressing_mode {
            AddressingMode::VxVy(x, y) => {
                self.v[x] = self.v[x] ^ self.v[y];
            },
            _ => unreached(),
        }
    }

    /// SHL: shift a register left by one bit. The flag register takes the bit that is
    /// shifted out, in place: 0 or 0x80. Both results are computed from the register as
    /// it was, and the register is written last.
    pub fn exec_shl(&mut self, addressing_mode: AddressingMode)
        requires
            old(self).wf(),
            old(self)@.accepts_shift(addressing_mode),
        ensures
            final(self).wf(),
            final(self)@ == old(self)@.after_shl(addressing_mode),
    {
        match addressing_mode {
            AddressingMode::VxVy(x, _) => {
                let value = self.v[x];
                assert(value << 1 == (value * 2) % 0x100) by (bit_vector);
                self.v[FLAG_REGISTER] = value & 0x80;
                self.v[x] = value << 1;
            },
            _ => unreached(),
        }
    }

    /// SHR: shift a register right by one bit. The flag register takes the bit that is
    /// shifted out. Both results are computed from the register as it was, and the
    /// register is written last.
    pub fn exec_shr(&mut self, addressing_mode: AddressingMode)
        requires
            old(self).wf(),
            old(self)@.accepts_shift(addressing_mode),
        ensures
            final(self).wf(),
            final(self)@ == old(self)@.after_shr(addressing_mode),
    {
        match addressing_mode {
            AddressingMode::VxVy(x, _) => {
                let value = self.v[x];
                assert(value >> 1 == value / 2) by (bit_vector);
                self.v[FLAG_REGISTER] = value & 0x01;
                self.v[x] = value >> 1;
            },
            _ => unreached(),
        }
    }

    /// SE: skip the next instruction if register `x` equals the other operand.
    pub fn exec_se(&mut self, addressing_mode: AddressingMode)
        requires
            old(self).wf(),
            old(self)@.accepts_se(addressing_mode),
        ensures
            final(self).wf(),
            final(self)@ == old(self)@.after_se(addressing_mode),
    {
        let (x, byte) = match addressing_mode {
            AddressingMode::VxImediate(x, kk) => (x, kk),
            AddressingMode::VxVy(x, y) => (x, self.v[y]),
            _ => unreached(),
        };

        if self.v[x] == byte {
            self.pc += 2;
        }
    }

    /// SNE: skip the next instruction if register `x` differs from the other operand.
    pub fn exec_sne(&mut self, addressing_mode: AddressingMode)
        requires
            old(self).wf(),
            old(self)@.accepts_sne(addressing_mode),
        ensures
            final(self).wf(),
            final(self)@ == old(self)@.after_sne(addressing_mode),
    {
        let (x, byte) = match addressing_mode {
            AddressingMode::VxImediate(x, kk) => (x, kk),
            AddressingMode::VxVy(x, y) => (x, self.v[y]),
            _ => unreached(),
        };

        if self.v[x] != byte {
            self.pc += 2;
        }
    }

    /// CALL: call the subroutine at the given address.
    pub fn exec_call(&mut self, addressing_mode: AddressingMode)
        requires
            old(self).wf(),
            old(self)@.accepts_call(addressing_mode),
        ensures
            final(self).wf(),
            final(self)@ == old(self)@.after_call(addressing_mode),
    {
        match addressing_mode {
            AddressingMode::Addr(addr) => {
                let pc = self.pc;
                self.push_stack(pc);
                self.pc = addr;
            },
            _ => unreached(),
        }
    }

    /// RET: return from a subroutine.
    pub fn exec_ret(&mut self, addressing_mode: AddressingMode)
        requires
            old(self).wf(),
            old(self)@.accepts_ret(addressing_mode),
        ensures
            final(self).wf(),
            final(self)@ == old(self)@.after_ret(addressing_mode),
    {
        match addressing_mode {
            AddressingMode::Implicit => {
                self.pc = self.pop_stack();
            },
            _ => unreached(),
        }
    }

    /// RND: set register `x` to a random byte under the mask. Which byte is drawn is
    /// not determined; [`CPU::exec_rnd_with`] says what is done with it.
    pub fn exec_rnd(&mut self, addressing_mode: AddressingMode)
        requires
            old(self).wf(),
            old(self)@.accepts_rnd(addressing_mode),
        ensures
            final(self).wf(),
            exists|sample: u8| final(self)@ == old(self)@.after_rnd(addressing_mode, sample),
    {
        let sample = random_byte();
        self.exec_rnd_with(addressing_mode, sample);
    }

    /// RND with the random byte given: set register `x` to `sample` under the mask.
    pub fn exec_rnd_with(&mut self, addressing_mode: AddressingMode, sample: u8)
        requires
            old(self).wf(),
            old(self)@.accepts_rnd(addressing_mode),
        ensures
            final(self).wf(),
            final(self)@ == old(self)@.after_rnd(addressing_mode, sample),
    {
        match addressing_mode {
            AddressingMode::VxImediate(x, nn) => {
                self.v[x] = sample & nn;
            },
            _ => unreached(),
        }
    }

    /// SKNP: skip the next instruction if the key named by register `x` is not down.
    pub fn exec_sknp(&mut self, addressing_mode: AddressingMode)
        requires
            old(self).wf(),
            old(self)@.accepts_sknp(addressing_mode),
        ensures
            final(self).wf(),
            final(self)@ == old(self)@.after_sknp(addressing_mode),
    {
        match addressing_mode {
            AddressingMode::Vx(x) => {
                if !self.is_key_down(self.v[x]) {
                    self.pc += 2;
                }
            },
            _ => unreached(),
        }
    }

    /// SKP: skip the next instruction if the key named by register `x` is down.
    pub fn exec_skp(&mut self, addressing_mode: AddressingMode)
        requires
            old(self).wf(),
            old(self)@.accepts_skp(addressing_mode),
        ensures
            final(self).wf(),
            final(self)@ == old(self)@.after_skp(addressing_mode),
    {
        match addressing_mode {
            AddressingMode::Vx(x) => {
                if self.is_key_down(self.v[x]) {
                    self.pc += 2;
                }
            },
            _ => unreached(),
        }
    }
}

/// A byte drawn by `rand::random`, which samples the thread-local generator of the
/// `rand` crate. Nothing is claimed about the value: any byte may come back, and two
/// calls may differ. The call takes no input; it fails only where the operating system
/// cannot seed the generator.
#[verifier::external_body]
fn random_byte() -> (sample: u8) {
    rand::random::<u8>()
}

} // verus!
