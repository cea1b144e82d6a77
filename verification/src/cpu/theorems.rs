//! What follows from the model of the processor, for single operations and for
//! operations in sequence.

use super::instruction::{AddressingMode, Instruction, Opcode};
use super::machine::{decimal_digits, Machine, FLAG_REGISTER, REGISTER_COUNT, STACK_SIZE};
use super::Status;
use crate::mmu::{Memory, MEMORY_SIZE, VRAM_SIZE};
use vstd::prelude::*;

verus! {

impl Instruction {
    /// Every instruction that the decoder yields names registers that exist, addresses
    /// of twelve bits and a sprite height of four bits.
    pub proof fn lemma_decoded_wf(opcode: u16)
        requires
            Self::decoded(opcode) is Some,
        ensures
            ({
                let Instruction(_, mode) = Self::decoded(opcode).unwrap();
                &&& mode.wf()
                &&& match mode {
                    AddressingMode::Addr(addr) => addr < 0x1000,
                    AddressingMode::V0Addr(addr) => addr < 0x1000,
                    AddressingMode::IAddr(addr) => addr < 0x1000,
                    AddressingMode::VxVyImediate(_, _, n) => n < 16,
                    _ => true,
                }
            }),
    {
    }

    /// A word is made of its four hexadecimal digits.
    proof fn lemma_digits(opcode: u16)
        ensures
            opcode == (opcode / 0x1000) * 0x1000 + (opcode / 0x100 % 0x10) * 0x100 + (opcode / 0x10
                % 0x10) * 0x10 + opcode % 0x10,
            opcode % 0x100 == (opcode / 0x10 % 0x10) * 0x10 + opcode % 0x10,
            opcode % 0x1000 == (opcode / 0x100 % 0x10) * 0x100 + opcode % 0x100,
            opcode / 0x1000 < 0x10,
    {
    }

    /// The decoder loses nothing, on the pages where the first digit alone names the
    /// operation.
    proof fn lemma_decoded_then_encoded_plain(opcode: u16)
        requires
            Self::decoded(opcode) is Some,
            opcode / 0x1000 != 0x8,
            opcode / 0x1000 != 0xE,
            opcode / 0x1000 != 0xF,
        ensures
            Self::decoded(opcode).unwrap().encoded() == opcode,
    {
        Self::lemma_digits(opcode);
    }

    /// The decoder loses nothing, on the page of the register operations.
    proof fn lemma_decoded_then_encoded_registers(opcode: u16)
        requires
            Self::decoded(opcode) is Some,
            opcode / 0x1000 == 0x8,
        ensures
            Self::decoded(opcode).unwrap().encoded() == opcode,
    {
        Self::lemma_digits(opcode);
    }

    /// The decoder loses nothing, on the pages where the low byte names the operation.
    proof fn lemma_decoded_then_encoded_by_low_byte(opcode: u16)
        requires
            Self::decoded(opcode) is Some,
            opcode / 0x1000 == 0xE || opcode / 0x1000 == 0xF,
        ensures
            Self::decoded(opcode).unwrap().encoded() == opcode,
    {
        Self::lemma_digits(opcode);
    }

    /// The decoder loses nothing: the word can be told from the instruction it encodes.
    pub proof fn lemma_decoded_then_encoded(opcode: u16)
        requires
            Self::decoded(opcode) is Some,
        ensures
            Self::decoded(opcode).unwrap().encoded() == opcode,
    {
        let page = opcode / 0x1000;
        if page == 0x8 {
            Self::lemma_decoded_then_encoded_registers(opcode);
        } else if page == 0xE || page == 0xF {
            Self::lemma_decoded_then_encoded_by_low_byte(opcode);
        } else {
            Self::lemma_decoded_then_encoded_plain(opcode);
        }
    }

    /// No two words encode the same instruction.
    pub proof fn lemma_decoded_apart(a: u16, b: u16)
        requires
            Self::decoded(a) is Some,
            Self::decoded(a) == Self::decoded(b),
        ensures
            a == b,
    {
        Self::lemma_decoded_then_encoded(a);
        Self::lemma_decoded_then_encoded(b);
    }
}

impl Machine {
    /// Every operation on a well-formed state that accepts its operands yields a
    /// well-formed state.
    pub proof fn lemma_execute_keeps_wf(self, instruction: Instruction, sample: u8)
        requires
            self.wf(),
            self.executable(instruction),
        ensures
            self.after_execute(instruction, sample).wf(),
    {
        if instruction.0 is DRW {
            match instruction.1 {
                AddressingMode::VxVyImediate(x, y, n) => {
                    self.lemma_drawn_keeps_memory(
                        self.v[x as int],
                        self.v[y as int],
                        8 * n as nat,
                    );
                },
                _ => {},
            }
        }
    }

    /// Only RND reads the random byte: for any other instruction the state that
    /// follows is the same whatever the byte.
    pub proof fn lemma_only_rnd_reads_sample(self, instruction: Instruction, s1: u8, s2: u8)
        requires
            !(instruction.0 is RND),
        ensures
            self.after_execute(instruction, s1) == self.after_execute(instruction, s2),
    {
    }

    /// What RND stores has no bit outside the mask, and RND changes no other register.
    pub proof fn lemma_rnd_stays_under_mask(self, x: usize, mask: u8, sample: u8, r: int)
        requires
            self.wf(),
            x < REGISTER_COUNT,
            0 <= r < REGISTER_COUNT,
        ensures
            ({
                let after = self.after_rnd(AddressingMode::VxImediate(x, mask), sample);
                &&& after.v[x as int] & !mask == 0
                &&& after.v[x as int] <= mask
                &&& r != x ==> after.v[r] == self.v[r]
            }),
    {
        assert((sample & mask) & !mask == 0 && sample & mask <= mask) by (bit_vector);
    }

    /// ADD of two registers: register `x` receives the sum modulo 256, unless it is the
    /// flag register itself, and the flag register receives 1 if the sum reached 256 and
    /// 0 if not. No other register changes.
    pub proof fn lemma_add_sum_and_carry(self, x: usize, y: usize, r: int)
        requires
            self.wf(),
            x < REGISTER_COUNT,
            y < REGISTER_COUNT,
            0 <= r < REGISTER_COUNT,
        ensures
            ({
                let after = self.after_add(AddressingMode::VxVy(x, y));
                let sum = self.v[x as int] + self.v[y as int];
                &&& x != FLAG_REGISTER ==> after.v[x as int] == sum % 256
                &&& after.v[FLAG_REGISTER as int] == if sum >= 256 { 1u8 } else { 0u8 }
                &&& r != x && r != FLAG_REGISTER ==> after.v[r] == self.v[r]
            }),
    {
    }

    /// SUB: register `x` receives the difference modulo 256, unless it is the flag
    /// register itself, and the flag register receives 1 if register `y` was the larger
    /// and 0 if not.
    pub proof fn lemma_sub_difference_and_borrow(self, x: usize, y: usize)
        requires
            self.wf(),
            x < REGISTER_COUNT,
            y < REGISTER_COUNT,
        ensures
            ({
                let after = self.after_sub(AddressingMode::VxVy(x, y));
                let (a, b) = (self.v[x as int], self.v[y as int]);
                &&& x != FLAG_REGISTER ==> after.v[x as int] == if a >= b {
                    a - b
                } else {
                    a - b + 256
                }
                &&& after.v[FLAG_REGISTER as int] == if b > a { 1u8 } else { 0u8 }
            }),
    {
    }

    /// SHL leaves the high bit of the register in the flag register where it stood: the
    /// flag is 0 or 0x80, never 1. This holds for every register but the flag register
    /// itself, which the shifted value overwrites.
    pub proof fn lemma_shl_flag_is_high_bit(self, x: usize, y: usize)
        requires
            self.wf(),
            x < REGISTER_COUNT,
            x != FLAG_REGISTER,
        ensures
            ({
                let after = self.after_shl(AddressingMode::VxVy(x, y));
                let a = self.v[x as int];
                &&& after.v[FLAG_REGISTER as int] == a & 0x80
                &&& after.v[FLAG_REGISTER as int] == if a >= 0x80 { 0x80u8 } else { 0u8 }
                &&& after.v[x as int] == (2 * a) % 256
            }),
    {
        let a = self.v[x as int];
        assert(a & 0x80 == if a >= 0x80 { 0x80u8 } else { 0u8 }) by (bit_vector);
    }

    /// SHR does not undo SHL: the high bit is lost. After SHL then SHR the register
    /// holds its former low seven bits, so it is restored exactly if it was below 0x80,
    /// and the flag register holds 0.
    pub proof fn lemma_shl_then_shr_loses_high_bit(self, x: usize, y: usize)
        requires
            self.wf(),
            x < REGISTER_COUNT,
            x != FLAG_REGISTER,
        ensures
            ({
                let mode = AddressingMode::VxVy(x, y);
                let after = self.after_shl(mode).after_shr(mode);
                let a = self.v[x as int];
                &&& after.v[x as int] == a % 0x80
                &&& after.v[x as int] == a <==> a < 0x80
                &&& after.v[FLAG_REGISTER as int] == 0
            }),
    {
        let a = self.v[x as int];
        let shifted = ((a * 2) % 0x100) as u8;
        assert(shifted & 0x01 == 0) by (bit_vector)
            requires
                shifted == ((a * 2) % 0x100) as u8,
        ;
    }

    /// Which cells a draw flips depends on the sprite and the position only: two states
    /// with the same index register and the same bytes in memory flip the same cells.
    pub proof fn lemma_flips_depend_on_sprite(
        self,
        other: Machine,
        vx: u8,
        vy: u8,
        count: nat,
        x: int,
        y: int,
    )
        requires
            self.i == other.i,
            self.bus.bytes == other.bus.bytes,
        ensures
            self.flips(vx, vy, count, x, y) == other.flips(vx, vy, count, x, y),
        decreases count,
    {
        if count > 0 {
            self.lemma_flips_depend_on_sprite(other, vx, vy, (count - 1) as nat, x, y);
        }
    }

    /// What a draw makes of each cell: a cell that the sprite flips an odd number of
    /// times has its lowest bit inverted, and every other cell is as it was.
    pub proof fn lemma_drawn_pixel(self, vx: u8, vy: u8, count: nat, x: int, y: int)
        requires
            self.wf(),
            0 <= x < 64,
            0 <= y < 32,
        ensures
            self.drawn(vx, vy, count).0.pixel(x, y) == if self.flips(vx, vy, count, x, y) {
                self.bus.pixel(x, y) ^ 1
            } else {
                self.bus.pixel(x, y)
            },
        decreases count,
    {
        if count > 0 {
            self.lemma_drawn_pixel(vx, vy, (count - 1) as nat, x, y);
            self.lemma_drawn_keeps_memory(vx, vy, (count - 1) as nat);
            let cell = self.bus.pixel(x, y);
            assert((cell ^ 1) ^ 1 == cell) by (bit_vector);
        }
    }

    /// The steps of a sprite of at most 32 rows land on cells that are all different:
    /// such a sprite does not wrap onto itself.
    pub proof fn lemma_steps_land_apart(vx: u8, vy: u8, s: int, t: int)
        requires
            0 <= s < 256,
            0 <= t < 256,
            s != t,
        ensures
            Self::step_x(vx, s) != Self::step_x(vx, t) || Self::step_y(vy, s) != Self::step_y(
                vy,
                t,
            ),
    {
    }

    /// For a sprite of at most 32 rows, a cell is flipped exactly if the sprite covers
    /// it.
    pub proof fn lemma_flips_iff_covers(self, vx: u8, vy: u8, count: nat, x: int, y: int)
        requires
            count <= 256,
        ensures
            self.flips(vx, vy, count, x, y) <==> self.covers(vx, vy, count, x, y),
        decreases count,
    {
        if count > 0 {
            let last = count - 1;
            self.lemma_flips_iff_covers(vx, vy, last as nat, x, y);
            if self.covers(vx, vy, last as nat, x, y) {
                // an earlier step lands on the cell, so the last one does not
                let step = choose|step: int|
                    0 <= step < last && #[trigger] self.step_lands_on(vx, vy, step, x, y);
                Self::lemma_steps_land_apart(vx, vy, step, last);
                assert(self.covers(vx, vy, count, x, y));
            } else if self.step_lands_on(vx, vy, last, x, y) {
                assert(self.covers(vx, vy, count, x, y));
            } else {
                assert(!self.covers(vx, vy, count, x, y));
            }
        }
    }

    /// For a sprite of at most 32 rows, DRW raises the collision flag exactly if the
    /// sprite overlaps what is on screen: if one of its set bits lands on a lit cell.
    pub proof fn lemma_drawn_flag(self, vx: u8, vy: u8, count: nat)
        requires
            self.wf(),
            count <= 256,
        ensures
            self.drawn(vx, vy, count).1 <==> self.overlaps(vx, vy, count),
        decreases count,
    {
        if count > 0 {
            let last = count - 1;
            let (x, y) = (Self::step_x(vx, last), Self::step_y(vy, last));
            self.lemma_drawn_flag(vx, vy, last as nat);
            self.lemma_drawn_pixel(vx, vy, last as nat, x, y);
            self.lemma_flips_iff_covers(vx, vy, last as nat, x, y);
            // no earlier step lands on the cell of the last step, so the last step finds
            // the cell as it was before the draw
            if self.covers(vx, vy, last as nat, x, y) {
                let step = choose|step: int|
                    0 <= step < last && #[trigger] self.step_lands_on(vx, vy, step, x, y);
                Self::lemma_steps_land_apart(vx, vy, step, last);
            }
            assert(self.drawn(vx, vy, last as nat).0.pixel(x, y) == self.bus.pixel(x, y));
            if self.overlaps(vx, vy, last as nat) || self.step_meets_lit(vx, vy, last) {
                assert(self.overlaps(vx, vy, count));
            } else {
                assert(!self.overlaps(vx, vy, count));
            }
        }
    }

    /// DRW in closed form, for a sprite of at most 32 rows: the cells that the sprite
    /// covers have their lowest bit inverted, every other cell is as it was, and the flag
    /// register holds 1 if the sprite overlapped what was on screen and 0 if not. Memory
    /// and every register but the flag register are as they were.
    pub proof fn lemma_drw_closed_form(self, x: usize, y: usize, n: u8, cx: int, cy: int)
        requires
            self.wf(),
            x < REGISTER_COUNT,
            y < REGISTER_COUNT,
            n <= 32,
            0 <= cx < 64,
            0 <= cy < 32,
        ensures
            ({
                let after = self.after_drw(AddressingMode::VxVyImediate(x, y, n));
                let (vx, vy) = (self.v[x as int], self.v[y as int]);
                let count = 8 * n as nat;
                &&& after.bus.pixel(cx, cy) == if self.covers(vx, vy, count, cx, cy) {
                    self.bus.pixel(cx, cy) ^ 1
                } else {
                    self.bus.pixel(cx, cy)
                }
                &&& after.v == self.v.update(
                    FLAG_REGISTER as int,
                    if self.overlaps(vx, vy, count) {
                        1u8
                    } else {
                        0u8
                    },
                )
                &&& after.bus.bytes == self.bus.bytes
                &&& after.bus.locked == self.bus.locked
                &&& after == (Machine { v: after.v, bus: after.bus, ..self })
            }),
    {
        let (vx, vy) = (self.v[x as int], self.v[y as int]);
        let count = 8 * n as nat;
        self.lemma_drawn_pixel(vx, vy, count, cx, cy);
        self.lemma_flips_iff_covers(vx, vy, count, cx, cy);
        self.lemma_drawn_flag(vx, vy, count);
        self.lemma_drawn_keeps_memory(vx, vy, count);
    }

    /// DRW is its own inverse on the framebuffer: the same sprite drawn twice at the
    /// same position leaves every cell as it was. The position registers must not be the
    /// flag register, which the first draw overwrites.
    pub proof fn lemma_drw_twice_restores_screen(self, x: usize, y: usize, n: u8)
        requires
            self.wf(),
            x < REGISTER_COUNT,
            y < REGISTER_COUNT,
            x != FLAG_REGISTER,
            y != FLAG_REGISTER,
            n > 0 ==> self.i + n <= MEMORY_SIZE,
        ensures
            ({
                let mode = AddressingMode::VxVyImediate(x, y, n);
                &&& self.after_drw(mode).accepts_drw(mode)
                &&& self.after_drw(mode).after_drw(mode).bus == self.bus
            }),
    {
        let mode = AddressingMode::VxVyImediate(x, y, n);
        let (vx, vy) = (self.v[x as int], self.v[y as int]);
        let count = 8 * n as nat;
        let once = self.after_drw(mode);
        let twice = once.after_drw(mode);
        self.lemma_drawn_keeps_memory(vx, vy, count);
        once.lemma_drawn_keeps_memory(vx, vy, count);
        assert forall|cell: int| 0 <= cell < VRAM_SIZE implies twice.bus.pixels[cell]
            == self.bus.pixels[cell] by {
            let (cx, cy) = (cell % 64, cell / 64);
            self.lemma_drawn_pixel(vx, vy, count, cx, cy);
            once.lemma_drawn_pixel(vx, vy, count, cx, cy);
            self.lemma_flips_depend_on_sprite(once, vx, vy, count, cx, cy);
            let before = self.bus.pixel(cx, cy);
            assert((before ^ 1) ^ 1 == before) by (bit_vector);
        }
    }

    /// A draw in which exactly one step is set flips the cell of that step and raises
    /// the flag exactly if that cell was lit.
    pub proof fn lemma_drawn_single_step(self, vx: u8, vy: u8, count: nat, only: int)
        requires
            self.wf(),
            0 <= only < count,
            forall|step: int| 0 <= step < count ==> (#[trigger] self.step_set(step) <==> step == only),
        ensures
            self.drawn(vx, vy, count) == (
                self.bus.xor_pixel(Self::step_x(vx, only), Self::step_y(vy, only), 1),
                self.bus.pixel(Self::step_x(vx, only), Self::step_y(vy, only)) == 1,
            ),
        decreases count,
    {
        let step = count - 1;
        if step == only {
            self.lemma_drawn_no_step(vx, vy, step as nat);
        } else {
            self.lemma_drawn_single_step(vx, vy, step as nat, only);
        }
    }

    /// A draw in which no step is set changes nothing and raises no flag.
    pub proof fn lemma_drawn_no_step(self, vx: u8, vy: u8, count: nat)
        requires
            forall|step: int| 0 <= step < count ==> !#[trigger] self.step_set(step),
        ensures
            self.drawn(vx, vy, count) == (self.bus, false),
        decreases count,
    {
        if count > 0 {
            self.lemma_drawn_no_step(vx, vy, (count - 1) as nat);
        }
    }

    /// A sprite of a single pixel, drawn twice at the same position: the first draw
    /// flips the cell under the pixel, the second flips it back, and the second draw
    /// raises the collision flag exactly if the first left the cell lit. Where the cell
    /// held 0 or 1, the flag after the second draw is the value of the cell after the
    /// first.
    ///
    /// The sprite is one row with only bit `bit` set, counted from the left. The
    /// position registers must not be the flag register, which the first draw
    /// overwrites.
    pub proof fn lemma_single_pixel_drawn_twice(self, x: usize, y: usize, bit: u8)
        requires
            self.wf(),
            x < REGISTER_COUNT,
            y < REGISTER_COUNT,
            x != FLAG_REGISTER,
            y != FLAG_REGISTER,
            self.i < MEMORY_SIZE,
            bit < 8,
            self.bus.bytes[self.i as int] == 0x80u8 >> bit,
        ensures
            ({
                let mode = AddressingMode::VxVyImediate(x, y, 1);
                let once = self.after_drw(mode);
                let twice = once.after_drw(mode);
                let cx = (self.v[x as int] + bit) % 64;
                let cy = self.v[y as int] as int % 32;
                &&& once.bus == self.bus.xor_pixel(cx, cy, 1)
                &&& once.v[FLAG_REGISTER as int] == if self.bus.pixel(cx, cy) == 1 {
                    1u8
                } else {
                    0u8
                }
                &&& twice.bus == self.bus
                &&& twice.v[FLAG_REGISTER as int] == if once.bus.pixel(cx, cy) == 1 {
                    1u8
                } else {
                    0u8
                }
                &&& self.bus.pixel(cx, cy) <= 1 ==> twice.v[FLAG_REGISTER as int]
                    == once.bus.pixel(cx, cy)
            }),
    {
        let mode = AddressingMode::VxVyImediate(x, y, 1);
        let (vx, vy) = (self.v[x as int], self.v[y as int]);
        let once = self.after_drw(mode);
        let row = self.bus.bytes[self.i as int];
        assert forall|step: int| 0 <= step < 8 implies (#[trigger] self.step_set(step) <==> step
            == bit) by {
            let other = step as u8;
            assert((row & (0x80u8 >> other) != 0) <==> other == bit) by (bit_vector)
                requires
                    row == 0x80u8 >> bit,
                    bit < 8,
                    other < 8,
            ;
        }
        self.lemma_drawn_single_step(vx, vy, 8, bit as int);
        self.lemma_drawn_keeps_memory(vx, vy, 8);
        assert forall|step: int| 0 <= step < 8 implies (#[trigger] once.step_set(step) <==> step
            == bit) by {
            assert(once.step_set(step) == self.step_set(step));
        }
        once.lemma_drawn_single_step(vx, vy, 8, bit as int);
        self.lemma_drw_twice_restores_screen(x, y, 1);
        let cell = self.bus.pixel((vx + bit) % 64, vy as int % 32);
        assert(cell <= 1 ==> (cell ^ 1 == 1 <==> cell == 0) && cell ^ 1 <= 1) by (bit_vector);
    }

    /// The three digits that LD stores for a byte are decimal digits, and they spell the
    /// byte.
    pub proof fn lemma_decimal_digits(byte: u8)
        ensures
            decimal_digits(byte).len() == 3,
            forall|place: int| 0 <= place < 3 ==> decimal_digits(byte)[place] <= 9,
            decimal_digits(byte)[0] * 100 + decimal_digits(byte)[1] * 10 + decimal_digits(
                byte,
            )[2] == byte,
    {
    }

    /// Registers that were stored to memory can be loaded back: after LD has stored
    /// registers 0 to `x` where every address takes the write, LD of registers 0 to `x`
    /// from the same place yields what was stored, whatever the registers hold by then,
    /// and leaves the registers above `x` alone.
    pub proof fn lemma_store_then_load_registers(self, x: usize, later: Seq<u8>)
        requires
            self.wf(),
            x < REGISTER_COUNT,
            self.i + x < MEMORY_SIZE,
            forall|a: int| self.i <= a <= self.i + x ==> self.bus.writable(a),
            later.len() == REGISTER_COUNT,
        ensures
            ({
                let stored = self.after_ld(AddressingMode::MemVx(x));
                let changed = Machine { v: later, ..stored };
                let loaded = changed.after_ld(AddressingMode::VxMem(x));
                &&& stored.after_ld(AddressingMode::VxMem(x)) == stored
                &&& forall|r: int| 0 <= r <= x ==> loaded.v[r] == self.v[r]
                &&& forall|r: int| x < r < REGISTER_COUNT ==> loaded.v[r] == later[r]
            }),
    {
        let stored = self.after_ld(AddressingMode::MemVx(x));
    }

    /// RET undoes CALL: the program counter is back where it was and so is the stack.
    pub proof fn lemma_call_then_ret(self, addr: u16)
        requires
            self.wf(),
            self.stack.len() < STACK_SIZE,
        ensures
            self.accepts_call(AddressingMode::Addr(addr)),
            self.after_call(AddressingMode::Addr(addr)).accepts_ret(AddressingMode::Implicit),
            self.after_call(AddressingMode::Addr(addr)).after_ret(AddressingMode::Implicit)
                == self,
    {
        let called = self.after_call(AddressingMode::Addr(addr));
    }

    /// A run is extended cycle by cycle: where a run can be made and one more cycle can
    /// follow it, the longer run can be made, and it ends where that cycle ends.
    pub proof fn lemma_one_more_cycle(self, samples: Seq<u8>, sample: u8)
        requires
            self.can_run(samples),
            self.after_cycles(samples).can_cycle(),
        ensures
            self.can_run(samples.push(sample)),
            self.after_cycles(samples.push(sample)) == self.after_cycles(samples).after_cycle(
                sample,
            ),
    {
        assert(samples.push(sample).drop_last() =~= samples);
    }

    /// A processor that waits for a key is not moved by a cycle, and can always run one.
    pub proof fn lemma_waiting_cycle_is_idle(self, sample: u8)
        requires
            self.status is WaitingKeypress,
        ensures
            self.can_cycle(),
            self.after_cycle(sample) == self,
    {
    }

    /// A key press wakes a processor that waits: the register it waited for holds the
    /// key, no other register changes, and the processor runs. The program counter
    /// stays where it is.
    pub proof fn lemma_key_press_wakes(self, x: usize, key: u8, r: int)
        requires
            self.wf(),
            self.status == Status::WaitingKeypress(x),
            0 <= r < REGISTER_COUNT,
        ensures
            self.after_key_press(key).status == Status::Running,
            self.after_key_press(key).v[x as int] == key,
            r != x ==> self.after_key_press(key).v[r] == self.v[r],
            self.after_key_press(key).pc == self.pc,
    {
    }

    /// After a key press that key is down and no other key is.
    pub proof fn lemma_key_press_sets_only_that_key(self, key: u8, other: u8)
        requires
            key < 16,
        ensures
            self.after_key_press(key).key_down(other) <==> other == key,
    {
        assert(other < 16 ==> ((1u16 << key) & (1u16 << other) != 0 <==> other == key))
            by (bit_vector)
            requires
                key < 16,
        ;
    }

    /// Timers stop at zero: a tick never wraps a timer around.
    pub proof fn lemma_tick_never_wraps(self)
        ensures
            self.after_tick().delay <= self.delay,
            self.after_tick().sound <= self.sound,
            self.delay == 0 ==> self.after_tick().delay == 0,
            self.sound == 0 ==> self.after_tick().sound == 0,
    {
    }
}

} // verus!
