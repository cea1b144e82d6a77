//! The mathematical model of the processor.
//!
//! [`Machine`] is the state of a [`CPU`](super::CPU) as plain values, and its
//! functions say what each operation makes of a state. The contracts of the
//! executable operations are stated over them.

use super::instruction::{AddressingMode, Instruction, Opcode};
use super::Status;
use crate::mmu::{Memory, MEMORY_SIZE};
use vstd::prelude::*;

verus! {

/// Number of general-purpose registers.
pub const REGISTER_COUNT: usize = 16;

/// Index of the register that receives carry, borrow, shift and collision flags.
pub const FLAG_REGISTER: usize = 0xF;

/// Number of return addresses that the stack can hold.
pub const STACK_SIZE: usize = 16;

/// The state of the processor.
#[verifier::ext_equal]
pub struct Machine {
    /// The general-purpose registers.
    pub v: Seq<u8>,
    /// Address of the next instruction.
    pub pc: u16,
    /// The index register.
    pub i: u16,
    /// The return addresses, the most recent last.
    pub stack: Seq<u16>,
    /// The delay timer.
    pub delay: u8,
    /// The sound timer.
    pub sound: u8,
    /// The keys that are down, one bit per key.
    pub keypad: u16,
    /// Whether the processor runs or waits for a key.
    pub status: Status,
    /// The memory unit.
    pub bus: Memory,
}

/// The decimal digits of a byte: hundreds, tens, ones.
pub open spec fn decimal_digits(byte: u8) -> Seq<u8> {
    seq![byte / 100, byte / 10 % 10, byte % 10]
}

/// The timer value one tick later: timers stop at zero.
pub open spec fn ticked(timer: u8) -> u8 {
    if timer > 0 {
        (timer - 1) as u8
    } else {
        0
    }
}

impl Machine {
    /// The sequences have their fixed shapes and a pending key goes to a register that
    /// exists.
    pub open spec fn wf(self) -> bool {
        &&& self.v.len() == REGISTER_COUNT
        &&& self.stack.len() <= STACK_SIZE
        &&& self.bus.wf()
        &&& (self.status matches Status::WaitingKeypress(x) ==> x < REGISTER_COUNT)
    }

    /// The state of a processor that was just built around `bus`.
    pub open spec fn initial(bus: Memory) -> Machine {
        Machine {
            v: Seq::new(REGISTER_COUNT as nat, |r: int| 0u8),
            pc: 0x200,
            i: 0,
            stack: Seq::empty(),
            delay: 0,
            sound: 0,
            keypad: 0,
            status: Status::Running,
            bus,
        }
    }

    /// The state with register `x` set to `byte`.
    pub open spec fn with_v(self, x: int, byte: u8) -> Machine {
        Machine { v: self.v.update(x, byte), ..self }
    }

    /// The state with the flag register set to 1 if `flag` holds, else to 0.
    pub open spec fn with_flag(self, flag: bool) -> Machine {
        self.with_v(FLAG_REGISTER as int, if flag { 1u8 } else { 0u8 })
    }

    /// The state with the program counter moved past one more instruction if `skip`
    /// holds.
    pub open spec fn skip_if(self, skip: bool) -> Machine {
        if skip {
            Machine { pc: (self.pc + 2) as u16, ..self }
        } else {
            self
        }
    }

    /// Whether a skip leaves the program counter in range.
    pub open spec fn can_skip_if(self, skip: bool) -> bool {
        skip ==> self.pc + 2 <= u16::MAX
    }

    /// Whether key `key` is down. Keys are numbered 0 to 15; there is no other key.
    pub open spec fn key_down(self, key: u8) -> bool {
        key < 16 && self.keypad & (1u16 << key) != 0
    }

    // ----- CLS ----------------------------------------------------------------------

    /// The state after CLS: every framebuffer cell is zero.
    pub open spec fn after_cls(self) -> Machine {
        Machine { bus: self.bus.clear_pixels(), ..self }
    }

    // ----- JP -----------------------------------------------------------------------

    /// The operands that JP takes.
    pub open spec fn accepts_jp(self, mode: AddressingMode) -> bool {
        mode is Addr || mode is V0Addr
    }

    /// The state after JP: the program counter is the address, or the address plus
    /// register 0, wrapping at 16 bits.
    pub open spec fn after_jp(self, mode: AddressingMode) -> Machine {
        match mode {
            AddressingMode::Addr(addr) => Machine { pc: addr, ..self },
            AddressingMode::V0Addr(addr) => Machine {
                pc: ((self.v[0] + addr) % 0x1_0000) as u16,
                ..self
            },
            _ => self,
        }
    }

    // ----- LD -----------------------------------------------------------------------

    /// The operands that LD takes in this state: the forms that touch memory need the
    /// addresses they touch to exist.
    pub open spec fn accepts_ld(self, mode: AddressingMode) -> bool {
        &&& mode.wf()
        &&& match mode {
            AddressingMode::VxImediate(_, _) => true,
            AddressingMode::VxVy(_, _) => true,
            AddressingMode::IAddr(_) => true,
            AddressingMode::VxDT(_) => true,
            AddressingMode::VxKey(_) => true,
            AddressingMode::DTVx(_) => true,
            AddressingMode::STVx(_) => true,
            AddressingMode::FVx(_) => true,
            AddressingMode::BVx(_) => self.i + 2 < MEMORY_SIZE,
            AddressingMode::MemVx(x) => self.i + x < MEMORY_SIZE,
            AddressingMode::VxMem(x) => self.i + x < MEMORY_SIZE,
            _ => false,
        }
    }

    /// The state after LD.
    pub open spec fn after_ld(self, mode: AddressingMode) -> Machine {
        match mode {
            AddressingMode::VxImediate(x, kk) => self.with_v(x as int, kk),
            AddressingMode::VxVy(x, y) => self.with_v(x as int, self.v[y as int]),
            AddressingMode::IAddr(addr) => Machine { i: addr, ..self },
            AddressingMode::VxDT(x) => self.with_v(x as int, self.delay),
            AddressingMode::VxKey(x) => Machine { status: Status::WaitingKeypress(x), ..self },
            AddressingMode::DTVx(x) => Machine { delay: self.v[x as int], ..self },
            AddressingMode::STVx(x) => Machine { sound: self.v[x as int], ..self },
            AddressingMode::FVx(x) => Machine { i: (self.v[x as int] * 5) as u16, ..self },
            AddressingMode::BVx(x) => Machine {
                bus: self.bus.store(self.i as int, decimal_digits(self.v[x as int])),
                ..self
            },
            AddressingMode::MemVx(x) => Machine {
                bus: self.bus.store(self.i as int, self.v.take(x + 1)),
                ..self
            },
            AddressingMode::VxMem(x) => Machine {
                v: Seq::new(
                    self.v.len(),
                    |r: int| if r <= x { self.bus.bytes[self.i + r] } else { self.v[r] },
                ),
                ..self
            },
            _ => self,
        }
    }

    // ----- DRW ----------------------------------------------------------------------

    /// Whether bit `bit` of row `row` of the sprite at the index register is set. Bit 0
    /// is the most significant, which is drawn leftmost.
    pub open spec fn sprite_bit(self, row: int, bit: int) -> bool {
        self.bus.bytes[self.i + row] & (0x80u8 >> (bit as u8)) != 0
    }

    /// Whether step `step` of a draw flips a cell. A draw takes one step for each bit of
    /// the sprite, row by row and from left to right: step `8 * row + bit` is for bit
    /// `bit` of row `row`.
    pub open spec fn step_set(self, step: int) -> bool {
        self.sprite_bit(step / 8, step % 8)
    }

    /// The column that step `step` of a draw at column `vx` lands on. Columns wrap around
    /// the right edge of the screen.
    pub open spec fn step_x(vx: u8, step: int) -> int {
        (vx + step % 8) % 64
    }

    /// The row that step `step` of a draw at row `vy` lands on. Rows wrap around the
    /// bottom edge of the screen.
    pub open spec fn step_y(vy: u8, step: int) -> int {
        (vy + step / 8) % 32
    }

    /// The memory unit and the collision flag after the first `count` steps of a draw
    /// with the top left corner of the sprite at `(vx, vy)`. A step whose bit is set
    /// flips its cell, and raises the flag if the cell was lit and so goes dark.
    pub open spec fn drawn(self, vx: u8, vy: u8, count: nat) -> (Memory, bool)
        decreases count,
    {
        if count == 0 {
            (self.bus, false)
        } else {
            let step = count - 1;
            let (bus, hit) = self.drawn(vx, vy, step as nat);
            if self.step_set(step) {
                let (x, y) = (Self::step_x(vx, step), Self::step_y(vy, step));
                (bus.xor_pixel(x, y, 1), hit || bus.pixel(x, y) == 1)
            } else {
                (bus, hit)
            }
        }
    }

    /// Whether step `step` of a draw at `(vx, vy)` is set and lands on the cell `(x, y)`.
    pub open spec fn step_lands_on(self, vx: u8, vy: u8, step: int, x: int, y: int) -> bool {
        self.step_set(step) && Self::step_x(vx, step) == x && Self::step_y(vy, step) == y
    }

    /// Whether the first `count` steps of a draw at `(vx, vy)` flip the cell `(x, y)` an
    /// odd number of times. A sprite of more than 32 rows wraps onto itself, so a cell
    /// can be flipped more than once.
    pub open spec fn flips(self, vx: u8, vy: u8, count: nat, x: int, y: int) -> bool
        decreases count,
    {
        if count == 0 {
            false
        } else {
            let step = count - 1;
            self.flips(vx, vy, step as nat, x, y) != self.step_lands_on(vx, vy, step, x, y)
        }
    }

    /// Whether one of the first `count` steps of a draw at `(vx, vy)` is set and lands on
    /// the cell `(x, y)`: whether the sprite covers the cell.
    pub open spec fn covers(self, vx: u8, vy: u8, count: nat, x: int, y: int) -> bool {
        exists|step: int| 0 <= step < count && #[trigger] self.step_lands_on(vx, vy, step, x, y)
    }

    /// Whether step `step` of a draw at `(vx, vy)` is set and lands on a cell that is lit
    /// in this state.
    pub open spec fn step_meets_lit(self, vx: u8, vy: u8, step: int) -> bool {
        self.step_set(step) && self.bus.pixel(Self::step_x(vx, step), Self::step_y(vy, step))
            == 1
    }

    /// Whether one of the first `count` steps of a draw at `(vx, vy)` is set and lands on
    /// a cell that is lit in this state: whether the sprite overlaps what is on screen.
    pub open spec fn overlaps(self, vx: u8, vy: u8, count: nat) -> bool {
        exists|step: int| 0 <= step < count && #[trigger] self.step_meets_lit(vx, vy, step)
    }

    /// Drawing changes the framebuffer only, and not its size.
    pub proof fn lemma_drawn_keeps_memory(self, vx: u8, vy: u8, count: nat)
        requires
            self.bus.wf(),
        ensures
            self.drawn(vx, vy, count).0.bytes == self.bus.bytes,
            self.drawn(vx, vy, count).0.locked == self.bus.locked,
            self.drawn(vx, vy, count).0.wf(),
        decreases count,
    {
        if count > 0 {
            self.lemma_drawn_keeps_memory(vx, vy, (count - 1) as nat);
        }
    }

    /// The operands that DRW takes in this state: every row of the sprite has an address.
    /// A sprite without rows needs none.
    pub open spec fn accepts_drw(self, mode: AddressingMode) -> bool {
        &&& mode.wf()
        &&& mode matches AddressingMode::VxVyImediate(_, _, n)
        &&& n > 0 ==> self.i + n <= MEMORY_SIZE
    }

    /// The state after DRW: the sprite of `n` rows is drawn at the position that
    /// registers `x` and `y` held, and the flag register says whether a pixel went dark.
    pub open spec fn after_drw(self, mode: AddressingMode) -> Machine {
        match mode {
            AddressingMode::VxVyImediate(x, y, n) => {
                let (bus, hit) = self.drawn(self.v[x as int], self.v[y as int], 8 * n as nat);
                Machine { bus, ..self }.with_flag(hit)
            },
            _ => self,
        }
    }

    // ----- ADD ----------------------------------------------------------------------

    /// The operands that ADD takes.
    pub open spec fn accepts_add(self, mode: AddressingMode) -> bool {
        mode.wf() && (mode is VxImediate || mode is VxVy || mode is IVx)
    }

    /// The state after ADD. Only the sum of two registers sets the flag register, and it
    /// sets it last.
    pub open spec fn after_add(self, mode: AddressingMode) -> Machine {
        match mode {
            AddressingMode::VxImediate(x, kk) => self.with_v(
                x as int,
                ((self.v[x as int] + kk) % 0x100) as u8,
            ),
            AddressingMode::VxVy(x, y) => {
                let sum = self.v[x as int] + self.v[y as int];
                self.with_v(x as int, (sum % 0x100) as u8).with_flag(sum >= 0x100)
            },
            AddressingMode::IVx(x) => Machine {
                i: ((self.i + self.v[x as int]) % 0x1_0000) as u16,
                ..self
            },
            _ => self,
        }
    }

    // ----- SUB ----------------------------------------------------------------------

    /// The operands that SUB, OR, AND and XOR take.
    pub open spec fn accepts_vx_vy(self, mode: AddressingMode) -> bool {
        mode.wf() && mode is VxVy
    }

    /// The state after SUB: register `x` is the difference modulo 256, and the flag
    /// register, set last, is 1 if the subtraction borrowed.
    pub open spec fn after_sub(self, mode: AddressingMode) -> Machine {
        match mode {
            AddressingMode::VxVy(x, y) => {
                let difference = self.v[x as int] - self.v[y as int];
                self.with_v(x as int, (difference % 0x100) as u8).with_flag(difference < 0)
            },
            _ => self,
        }
    }

    // ----- OR, AND, XOR -------------------------------------------------------------

    /// The state after OR.
    pub open spec fn after_or(self, mode: AddressingMode) -> Machine {
        match mode {
            AddressingMode::VxVy(x, y) => self.with_v(
                x as int,
                self.v[x as int] | self.v[y as int],
            ),
            _ => self,
        }
    }

    /// The state after AND.
    pub open spec fn after_and(self, mode: AddressingMode) -> Machine {
        match mode {
            AddressingMode::VxVy(x, y) => self.with_v(
                x as int,
                self.v[x as int] & self.v[y as int],
            ),
            _ => self,
        }
    }

    /// The state after XOR.
    pub open spec fn after_xor(self, mode: AddressingMode) -> Machine {
        match mode {
            AddressingMode::VxVy(x, y) => self.with_v(
                x as int,
                self.v[x as int] ^ self.v[y as int],
            ),
            _ => self,
        }
    }

    // ----- SHL, SHR -----------------------------------------------------------------

    /// The operands that SHL and SHR take. The second register is not read, so it need
    /// not exist.
    pub open spec fn accepts_shift(self, mode: AddressingMode) -> bool {
        mode matches AddressingMode::VxVy(x, _) && x < REGISTER_COUNT
    }

    /// The state after SHL: the flag register takes the high bit of register `x` where
    /// it stands (0 or 0x80), then register `x` takes twice its former value modulo 256.
    pub open spec fn after_shl(self, mode: AddressingMode) -> Machine {
        match mode {
            AddressingMode::VxVy(x, _) => {
                let value = self.v[x as int];
                self.with_v(FLAG_REGISTER as int, value & 0x80).with_v(
                    x as int,
                    ((value * 2) % 0x100) as u8,
                )
            },
            _ => self,
        }
    }

    /// The state after SHR: the flag register takes the low bit of register `x`, then
    /// register `x` takes half its former value.
    pub open spec fn after_shr(self, mode: AddressingMode) -> Machine {
        match mode {
            AddressingMode::VxVy(x, _) => {
                let value = self.v[x as int];
                self.with_v(FLAG_REGISTER as int, value & 0x01).with_v(x as int, value / 2)
            },
            _ => self,
        }
    }

    // ----- SE, SNE ------------------------------------------------------------------

    /// Whether register `x` equals the other operand of SE or SNE.
    pub open spec fn operands_equal(self, mode: AddressingMode) -> bool {
        match mode {
            AddressingMode::VxImediate(x, kk) => self.v[x as int] == kk,
            AddressingMode::VxVy(x, y) => self.v[x as int] == self.v[y as int],
            _ => false,
        }
    }

    /// The operands that SE takes in this state.
    pub open spec fn accepts_se(self, mode: AddressingMode) -> bool {
        &&& mode.wf()
        &&& mode is VxImediate || mode is VxVy
        &&& self.can_skip_if(self.operands_equal(mode))
    }

    /// The state after SE: the next instruction is skipped if the operands are equal.
    pub open spec fn after_se(self, mode: AddressingMode) -> Machine {
        self.skip_if(self.operands_equal(mode))
    }

    /// The operands that SNE takes in this state.
    pub open spec fn accepts_sne(self, mode: AddressingMode) -> bool {
        &&& mode.wf()
        &&& mode is VxImediate || mode is VxVy
        &&& self.can_skip_if(!self.operands_equal(mode))
    }

    /// The state after SNE: the next instruction is skipped if the operands differ.
    pub open spec fn after_sne(self, mode: AddressingMode) -> Machine {
        self.skip_if(!self.operands_equal(mode))
    }

    // ----- CALL, RET ----------------------------------------------------------------

    /// The operands that CALL takes in this state: the stack has room.
    pub open spec fn accepts_call(self, mode: AddressingMode) -> bool {
        mode is Addr && self.stack.len() < STACK_SIZE
    }

    /// The state after CALL: the program counter is pushed, then set to the address.
    pub open spec fn after_call(self, mode: AddressingMode) -> Machine {
        match mode {
            AddressingMode::Addr(addr) => Machine {
                stack: self.stack.push(self.pc),
                pc: addr,
                ..self
            },
            _ => self,
        }
    }

    /// The operands that RET takes in this state: the stack is not empty.
    pub open spec fn accepts_ret(self, mode: AddressingMode) -> bool {
        mode is Implicit && self.stack.len() > 0
    }

    /// The state after RET: the program counter is popped.
    pub open spec fn after_ret(self, mode: AddressingMode) -> Machine {
        match mode {
            AddressingMode::Implicit => Machine {
                stack: self.stack.drop_last(),
                pc: self.stack.last(),
                ..self
            },
            _ => self,
        }
    }

    // ----- RND ----------------------------------------------------------------------

    /// The operands that RND takes.
    pub open spec fn accepts_rnd(self, mode: AddressingMode) -> bool {
        mode.wf() && mode is VxImediate
    }

    /// The state after RND when the random byte is `sample`: register `x` holds the
    /// sample under the mask.
    pub open spec fn after_rnd(self, mode: AddressingMode, sample: u8) -> Machine {
        match mode {
            AddressingMode::VxImediate(x, mask) => self.with_v(x as int, sample & mask),
            _ => self,
        }
    }

    // ----- SKP, SKNP ----------------------------------------------------------------

    /// Whether the key named by register `x` is down.
    pub open spec fn operand_key_down(self, mode: AddressingMode) -> bool {
        match mode {
            AddressingMode::Vx(x) => self.key_down(self.v[x as int]),
            _ => false,
        }
    }

    /// The operands that SKP takes in this state.
    pub open spec fn accepts_skp(self, mode: AddressingMode) -> bool {
        &&& mode.wf()
        &&& mode is Vx
        &&& self.can_skip_if(self.operand_key_down(mode))
    }

    /// The state after SKP: the next instruction is skipped if the key is down.
    pub open spec fn after_skp(self, mode: AddressingMode) -> Machine {
        self.skip_if(self.operand_key_down(mode))
    }

    /// The operands that SKNP takes in this state.
    pub open spec fn accepts_sknp(self, mode: AddressingMode) -> bool {
        &&& mode.wf()
        &&& mode is Vx
        &&& self.can_skip_if(!self.operand_key_down(mode))
    }

    /// The state after SKNP: the next instruction is skipped if the key is up.
    pub open spec fn after_sknp(self, mode: AddressingMode) -> Machine {
        self.skip_if(!self.operand_key_down(mode))
    }

    // ----- dispatch -----------------------------------------------------------------

    /// Whether `instruction` can be executed in this state. SYS and SUBN have no
    /// handler, and CLS ignores its operands.
    pub open spec fn executable(self, instruction: Instruction) -> bool {
        let mode = instruction.1;
        match instruction.0 {
            Opcode::CLS => true,
            Opcode::JP => self.accepts_jp(mode),
            Opcode::LD => self.accepts_ld(mode),
            Opcode::DRW => self.accepts_drw(mode),
            Opcode::ADD => self.accepts_add(mode),
            Opcode::SUB => self.accepts_vx_vy(mode),
            Opcode::OR => self.accepts_vx_vy(mode),
            Opcode::AND => self.accepts_vx_vy(mode),
            Opcode::XOR => self.accepts_vx_vy(mode),
            Opcode::SHL => self.accepts_shift(mode),
            Opcode::SHR => self.accepts_shift(mode),
            Opcode::SE => self.accepts_se(mode),
            Opcode::SNE => self.accepts_sne(mode),
            Opcode::CALL => self.accepts_call(mode),
            Opcode::RET => self.accepts_ret(mode),
            Opcode::RND => self.accepts_rnd(mode),
            Opcode::SKP => self.accepts_skp(mode),
            Opcode::SKNP => self.accepts_sknp(mode),
            Opcode::SYS => false,
            Opcode::SUBN => false,
        }
    }

    /// The state after `instruction`, where `sample` is the random byte that RND drew.
    /// No other operation reads `sample`.
    pub open spec fn after_execute(self, instruction: Instruction, sample: u8) -> Machine {
        let mode = instruction.1;
        match instruction.0 {
            Opcode::CLS => self.after_cls(),
            Opcode::JP => self.after_jp(mode),
            Opcode::LD => self.after_ld(mode),
            Opcode::DRW => self.after_drw(mode),
            Opcode::ADD => self.after_add(mode),
            Opcode::SUB => self.after_sub(mode),
            Opcode::OR => self.after_or(mode),
            Opcode::AND => self.after_and(mode),
            Opcode::XOR => self.after_xor(mode),
            Opcode::SHL => self.after_shl(mode),
            Opcode::SHR => self.after_shr(mode),
            Opcode::SE => self.after_se(mode),
            Opcode::SNE => self.after_sne(mode),
            Opcode::CALL => self.after_call(mode),
            Opcode::RET => self.after_ret(mode),
            Opcode::RND => self.after_rnd(mode, sample),
            Opcode::SKP => self.after_skp(mode),
            Opcode::SKNP => self.after_sknp(mode),
            Opcode::SYS => self,
            Opcode::SUBN => self,
        }
    }

    // ----- fetch and cycle ----------------------------------------------------------

    /// Whether an instruction can be fetched: both of its bytes have an address and
    /// they encode an instruction.
    pub open spec fn can_fetch(self) -> bool {
        &&& self.pc + 1 < MEMORY_SIZE
        &&& Instruction::decoded(self.bus.read_word(self.pc as int)) is Some
    }

    /// The instruction at the program counter.
    pub open spec fn next_instruction(self) -> Instruction {
        Instruction::decoded(self.bus.read_word(self.pc as int))->0
    }

    /// The state after a fetch: the program counter is past the instruction.
    pub open spec fn after_fetch(self) -> Machine {
        Machine { pc: (self.pc + 2) as u16, ..self }
    }

    /// Whether the next cycle draws a random byte: the processor runs and the next
    /// instruction is RND.
    pub open spec fn draws_sample(self) -> bool {
        self.status is Running && self.next_instruction().0 is RND
    }

    /// Whether a cycle can run. A processor that waits for a key always can: its cycle
    /// does nothing.
    pub open spec fn can_cycle(self) -> bool {
        self.status is Running ==> {
            &&& self.can_fetch()
            &&& self.after_fetch().executable(self.next_instruction())
        }
    }

    /// The state after one cycle, where `sample` is the random byte that RND drew. A
    /// running processor fetches, then executes with the program counter already past
    /// the instruction; a waiting processor stays as it is.
    pub open spec fn after_cycle(self, sample: u8) -> Machine {
        if self.status is Running {
            self.after_fetch().after_execute(self.next_instruction(), sample)
        } else {
            self
        }
    }

    /// The state after one cycle for each of `samples`, the random bytes that the
    /// cycles drew in turn.
    pub open spec fn after_cycles(self, samples: Seq<u8>) -> Machine
        decreases samples.len(),
    {
        if samples.len() == 0 {
            self
        } else {
            self.after_cycles(samples.drop_last()).after_cycle(samples.last())
        }
    }

    /// Whether one cycle for each of `samples` can run: whether each cycle finds a state
    /// in which it can.
    pub open spec fn can_run(self, samples: Seq<u8>) -> bool
        decreases samples.len(),
    {
        samples.len() > 0 ==> {
            &&& self.can_run(samples.drop_last())
            &&& self.after_cycles(samples.drop_last()).can_cycle()
        }
    }

    // ----- what the surroundings do -------------------------------------------------

    /// The state after key `key` was pressed: a waiting processor stores the key in the
    /// register it waits for and runs again, and the key becomes the only key down.
    pub open spec fn after_key_press(self, key: u8) -> Machine {
        let woken = match self.status {
            Status::WaitingKeypress(x) => Machine {
                status: Status::Running,
                ..self.with_v(x as int, key)
            },
            Status::Running => self,
        };
        Machine { keypad: 1u16 << key, ..woken }
    }

    /// The state after one tick of the timers.
    pub open spec fn after_tick(self) -> Machine {
        Machine { delay: ticked(self.delay), sound: ticked(self.sound), ..self }
    }

    /// The state with the keypad mask replaced.
    pub open spec fn with_keypad(self, keypad: u16) -> Machine {
        Machine { keypad, ..self }
    }
}

} // verus!
