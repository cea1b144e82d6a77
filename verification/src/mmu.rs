//! The memory unit: boot ROM, program region, working RAM and the framebuffer.
//!
//! The three byte regions form one address space of 4096 entries:
//!
//! | range             | region  | writable                 |
//! |-------------------|---------|--------------------------|
//! | `0x000..0x200`    | boot    | always                   |
//! | `0x200..0x600`    | program | until the ROM is locked  |
//! | `0x600..0x1000`   | working | always                   |
//!
//! Contracts are stated over [`Memory`], the mathematical contents of an [`MMU`].

use vstd::prelude::*;

verus! {

/// Size of the boot region, which starts at address 0.
pub const ROM_SIZE: usize = 0x200;

/// Size of the program region, which follows the boot region.
pub const UPPER_ROM_SIZE: usize = 0x400;

/// Size of the working region, which follows the program region.
pub const RAM_SIZE: usize = 0xA00;

/// Number of addressable bytes.
pub const MEMORY_SIZE: usize = 0x1000;

/// Width of the display in pixels.
pub const SCREEN_WIDTH: usize = 64;

/// Height of the display in pixels.
pub const SCREEN_HEIGHT: usize = 32;

/// Number of framebuffer cells.
pub const VRAM_SIZE: usize = 64 * 32;

/// Number of bytes in the built-in font.
pub const FONT_SIZE: usize = 0x50;

/// The built-in font: sixteen glyphs of five rows each, for the digits 0 to F.
pub const CH8_FONT: [u8; 0x50] = [
    0x60, 0x90, 0x90, 0x90, 0x60,
    0x20, 0x60, 0x20, 0x20, 0xF0,
    0xE0, 0x10, 0x70, 0x80, 0xF0,
    0xF0, 0x10, 0xF0, 0x10, 0xF0,
    0x90, 0x90, 0xF0, 0x10, 0x10,
    0xF0, 0x80, 0xF0, 0x10, 0xF0,
    0xF0, 0x80, 0xF0, 0x90, 0xF0,
    0xF0, 0x10, 0x20, 0x40, 0x40,
    0x60, 0x90, 0x60, 0x90, 0x60,
    0xF0, 0x90, 0xF0, 0x10, 0xF0,
    0x60, 0x90, 0xF0, 0x90, 0x90,
    0xE0, 0x90, 0xE0, 0x90, 0xE0,
    0xF0, 0x80, 0x80, 0x80, 0xF0,
    0xE0, 0x90, 0x90, 0x90, 0xE0,
    0xF0, 0x80, 0xF0, 0x80, 0xF0,
    0xF0, 0x80, 0xF0, 0x80, 0x80,
];

/// The contents of a memory unit.
#[verifier::ext_equal]
pub struct Memory {
    /// The byte at each address, boot region first.
    pub bytes: Seq<u8>,
    /// The framebuffer, row by row: cell `(x, y)` is at `x + 64 * y`.
    pub pixels: Seq<u8>,
    /// Whether the program region is write-protected.
    pub locked: bool,
}

impl Memory {
    /// Both sequences have their fixed lengths.
    pub open spec fn wf(self) -> bool {
        &&& self.bytes.len() == MEMORY_SIZE
        &&& self.pixels.len() == VRAM_SIZE
    }

    /// A fresh memory unit: the font at the start of the boot region, zero everywhere else,
    /// a dark screen, and no write lock.
    pub open spec fn initial() -> Memory {
        Memory {
            bytes: Seq::new(
                MEMORY_SIZE as nat,
                |a: int| if 0 <= a < FONT_SIZE { CH8_FONT[a] } else { 0u8 },
            ),
            pixels: Seq::new(VRAM_SIZE as nat, |p: int| 0u8),
            locked: false,
        }
    }

    /// Whether `a` lies in the program region.
    pub open spec fn in_program_region(a: int) -> bool {
        ROM_SIZE <= a < ROM_SIZE + UPPER_ROM_SIZE
    }

    /// Whether a byte write to `a` takes effect: only the program region of a locked
    /// unit refuses writes.
    pub open spec fn writable(self, a: int) -> bool {
        !(self.locked && Self::in_program_region(a))
    }

    /// The contents after a byte write to `a`. A refused write changes nothing.
    pub open spec fn write(self, a: int, byte: u8) -> Memory {
        if self.writable(a) {
            Memory { bytes: self.bytes.update(a, byte), ..self }
        } else {
            self
        }
    }

    /// The contents after the bytes of `data` are written to `a` and the addresses that
    /// follow it, each under the rule for byte writes.
    pub open spec fn store(self, a: int, data: Seq<u8>) -> Memory {
        Memory {
            bytes: Seq::new(
                self.bytes.len(),
                |k: int|
                    if a <= k < a + data.len() && self.writable(k) {
                        data[k - a]
                    } else {
                        self.bytes[k]
                    },
            ),
            ..self
        }
    }

    /// The big-endian word at `a` and `a + 1`.
    pub open spec fn read_word(self, a: int) -> u16 {
        (self.bytes[a] * 256 + self.bytes[a + 1]) as u16
    }

    /// The contents after a big-endian word write: the high byte goes to `a`, the low
    /// byte to `a + 1`, each under the rule for byte writes.
    pub open spec fn write_word(self, a: int, word: u16) -> Memory {
        self.write(a, (word / 256) as u8).write(a + 1, (word % 256) as u8)
    }

    /// Index of the framebuffer cell `(x, y)`.
    pub open spec fn pixel_offset(x: int, y: int) -> int {
        x + y * 64
    }

    /// The value of the framebuffer cell `(x, y)`.
    pub open spec fn pixel(self, x: int, y: int) -> u8 {
        self.pixels[Self::pixel_offset(x, y)]
    }

    /// The contents after `byte` is XORed into cell `(x, y)`.
    pub open spec fn xor_pixel(self, x: int, y: int, byte: u8) -> Memory {
        Memory {
            pixels: self.pixels.update(Self::pixel_offset(x, y), self.pixel(x, y) ^ byte),
            ..self
        }
    }

    /// The contents after every framebuffer cell is set to zero.
    pub open spec fn clear_pixels(self) -> Memory {
        Memory { pixels: Seq::new(VRAM_SIZE as nat, |p: int| 0u8), ..self }
    }

    /// The contents after `image` is copied to address `0x200` onwards and the lock is
    /// engaged. The copy is not stopped at the end of the program region.
    pub open spec fn load(self, image: Seq<u8>) -> Memory {
        Memory {
            bytes: Seq::new(
                self.bytes.len(),
                |a: int|
                    if ROM_SIZE <= a < ROM_SIZE + image.len() {
                        image[a - ROM_SIZE]
                    } else {
                        self.bytes[a]
                    },
            ),
            locked: true,
            ..self
        }
    }

    /// The contents after the lock is engaged.
    pub open spec fn lock(self) -> Memory {
        Memory { locked: true, ..self }
    }

    /// The cells that are lit (hold 1) among the first `count` cells, as `(x, y)` pairs
    /// in row-major order.
    pub open spec fn lit_pixels(self, count: int) -> Seq<(usize, usize)>
        decreases count,
    {
        if count <= 0 {
            Seq::empty()
        } else {
            let rest = self.lit_pixels(count - 1);
            let p = count - 1;
            if self.pixels[p] == 1 {
                rest.push(((p % 64) as usize, (p / 64) as usize))
            } else {
                rest
            }
        }
    }
}

impl Memory {
    /// After a load, the addresses from `0x200` on hold the image, byte for byte, and
    /// every other address holds what it held before.
    pub proof fn lemma_load_holds_image(self, image: Seq<u8>, a: int)
        requires
            self.wf(),
            image.len() <= UPPER_ROM_SIZE + RAM_SIZE,
            0 <= a < MEMORY_SIZE,
        ensures
            self.load(image).wf(),
            ROM_SIZE <= a < ROM_SIZE + image.len() ==> self.load(image).bytes[a] == image[a
                - ROM_SIZE],
            !(ROM_SIZE <= a < ROM_SIZE + image.len()) ==> self.load(image).bytes[a]
                == self.bytes[a],
    {
    }

    /// A load into a fresh unit leaves the boot region as it was built: the font,
    /// followed by zeros.
    pub proof fn lemma_load_keeps_font(image: Seq<u8>, a: int)
        requires
            0 <= a < ROM_SIZE,
        ensures
            Memory::initial().load(image).bytes[a] == if a < FONT_SIZE {
                CH8_FONT[a]
            } else {
                0u8
            },
    {
    }

    /// A load engages the lock, and a byte write to the program region of a locked unit
    /// changes nothing: a read that follows returns what it would have returned before.
    pub proof fn lemma_program_write_ignored_after_load(
        self,
        image: Seq<u8>,
        a: int,
        byte: u8,
    )
        requires
            Self::in_program_region(a),
        ensures
            self.load(image).locked,
            self.load(image).write(a, byte) == self.load(image),
            self.load(image).write(a, byte).bytes[a] == self.load(image).bytes[a],
    {
    }

    /// Outside the program region of a locked unit, a byte that was written is the byte
    /// that is read, and no other address changes.
    pub proof fn lemma_write_then_read(self, a: int, byte: u8, b: int)
        requires
            self.wf(),
            0 <= a < MEMORY_SIZE,
            0 <= b < MEMORY_SIZE,
            self.writable(a),
        ensures
            self.write(a, byte).bytes[b] == if a == b {
                byte
            } else {
                self.bytes[b]
            },
    {
    }

    /// A word that was written where both of its bytes are writable is the word that
    /// is read.
    pub proof fn lemma_write_word_then_read_word(self, a: int, word: u16)
        requires
            self.wf(),
            0 <= a,
            a + 1 < MEMORY_SIZE,
            self.writable(a),
            self.writable(a + 1),
        ensures
            self.write_word(a, word).read_word(a) == word,
    {
    }

    /// The lock is never released: no operation on a locked unit yields an unlocked one.
    pub proof fn lemma_lock_is_permanent(self, a: int, byte: u8, word: u16, image: Seq<u8>)
        requires
            self.locked,
        ensures
            self.write(a, byte).locked,
            self.write_word(a, word).locked,
            self.store(a, image).locked,
            self.load(image).locked,
            self.lock().locked,
            self.clear_pixels().locked,
            forall|x: int, y: int| (#[trigger] self.xor_pixel(x, y, byte)).locked,
    {
    }

    /// The list of lit cells holds exactly the cells that hold 1: each of them once, and
    /// no other.
    pub proof fn lemma_lit_pixels(self, count: int, x: usize, y: usize)
        requires
            self.wf(),
            0 <= count <= VRAM_SIZE,
        ensures
            self.lit_pixels(count).contains((x, y)) <==> x < SCREEN_WIDTH
                && Self::pixel_offset(x as int, y as int) < count
                && self.pixel(x as int, y as int) == 1,
            self.lit_pixels(count).no_duplicates(),
        decreases count,
    {
        if count > 0 {
            let p = count - 1;
            let rest = self.lit_pixels(p);
            let cell = ((p % 64) as usize, (p / 64) as usize);
            self.lemma_lit_pixels(p, x, y);
            self.lemma_lit_pixels(p, cell.0, cell.1);
            if self.pixels[p] == 1 {
                let lit = rest.push(cell);
                assert(lit[lit.len() - 1] == cell);
                if rest.contains((x, y)) {
                    let k = choose|k: int| 0 <= k < rest.len() && rest[k] == (x, y);
                    assert(lit[k] == (x, y));
                }
            }
        }
    }

    /// XOR is its own inverse: the same byte XORed twice into the same cell leaves the
    /// framebuffer as it was.
    pub proof fn lemma_xor_pixel_twice(self, x: int, y: int, byte: u8)
        requires
            self.wf(),
            0 <= Self::pixel_offset(x, y) < VRAM_SIZE,
        ensures
            self.xor_pixel(x, y, byte).xor_pixel(x, y, byte) == self,
    {
        let cell = self.pixel(x, y);
        assert((cell ^ byte) ^ byte == cell) by (bit_vector);
    }

    /// When a bit is drawn twice into the same cell, the cell goes back to what it was.
    /// The first draw leaves the cell lit, which is what makes the second draw report a
    /// collision, exactly if the cell held 0 before.
    pub proof fn lemma_bit_drawn_twice(self, x: int, y: int)
        requires
            self.wf(),
            0 <= Self::pixel_offset(x, y) < VRAM_SIZE,
        ensures
            self.xor_pixel(x, y, 1).xor_pixel(x, y, 1) == self,
            (self.xor_pixel(x, y, 1).pixel(x, y) == 1) <==> self.pixel(x, y) == 0,
    {
        self.lemma_xor_pixel_twice(x, y, 1);
        let cell = self.pixel(x, y);
        assert((cell ^ 1 == 1) <==> cell == 0) by (bit_vector);
    }
}

/// The memory unit.
pub struct MMU {
    rom: [u8; ROM_SIZE],
    upper_rom: [u8; UPPER_ROM_SIZE],
    ram: [u8; RAM_SIZE],
    vram: [u8; VRAM_SIZE],
    locked_rom: bool,
}

impl View for MMU {
    type V = Memory;

    closed spec fn view(&self) -> Memory {
        Memory {
            bytes: Seq::new(
                MEMORY_SIZE as nat,
                |a: int|
                    if a < ROM_SIZE {
                        self.rom[a]
                    } else if a < ROM_SIZE + UPPER_ROM_SIZE {
                        self.upper_rom[a - ROM_SIZE]
                    } else {
                        self.ram[a - ROM_SIZE - UPPER_ROM_SIZE]
                    },
            ),
            pixels: self.vram@,
            locked: self.locked_rom,
        }
    }
}

impl Default for MMU {
    /// A fresh, unlocked unit that holds the font.
    fn default() -> (mmu: MMU)
        ensures
            mmu@ == Memory::initial(),
    {
        let mut rom = [0u8; ROM_SIZE];
        let mut i: usize = 0;
        while i < FONT_SIZE
            invariant
                i <= FONT_SIZE,
                forall|j: int| 0 <= j < i ==> rom[j] == CH8_FONT[j],
                forall|j: int| i <= j < ROM_SIZE ==> rom[j] == 0,
            decreases FONT_SIZE - i,
        {
            rom[i] = CH8_FONT[i];
            i += 1;
        }
        let mmu = MMU {
            rom,
            upper_rom: [0u8; UPPER_ROM_SIZE],
            ram: [0u8; RAM_SIZE],
            vram: [0u8; VRAM_SIZE],
            locked_rom: false,
        };
        mmu
    }
}

impl MMU {
    /// The contents of every unit are well-formed.
    pub proof fn lemma_view_wf(&self)
        ensures
            self@.wf(),
    {
    }

    /// Reads the byte at `offset`.
    pub fn rb(&self, offset: usize) -> (byte: u8)
        requires
            offset < MEMORY_SIZE,
        ensures
            byte == self@.bytes[offset as int],
    {
        if offset < ROM_SIZE {
            self.rom[offset]
        } else if offset < ROM_SIZE + UPPER_ROM_SIZE {
            self.upper_rom[offset - ROM_SIZE]
        } else {
            self.ram[offset - ROM_SIZE - UPPER_ROM_SIZE]
        }
    }

    /// Writes `byte` at `offset`, unless `offset` lies in the program region and the ROM
    /// is locked: such a write is ignored.
    pub fn wb(&mut self, offset: usize, byte: u8)
        requires
            offset < MEMORY_SIZE,
        ensures
            final(self)@ == old(self)@.write(offset as int, byte),
    {
        if offset < ROM_SIZE {
            self.rom[offset] = byte;
        } else if offset < ROM_SIZE + UPPER_ROM_SIZE {
            if !self.locked_rom {
                self.upper_rom[offset - ROM_SIZE] = byte;
            }
        } else {
            self.ram[offset - ROM_SIZE - UPPER_ROM_SIZE] = byte;
        }
    }

    /// Reads the big-endian word at `offset`.
    pub fn rw(&self, offset: usize) -> (word: u16)
        requires
            offset + 1 < MEMORY_SIZE,
        ensures
            word == self@.read_word(offset as int),
    {
        let high = self.rb(offset);
        let low = self.rb(offset + 1);
        assert(((high as u16) << 8 | (low as u16)) == high * 256 + low) by (bit_vector);
        (high as u16) << 8 | (low as u16)
    }

    /// Writes `word` big-endian at `offset`, as two byte writes.
    pub fn ww(&mut self, offset: usize, word: u16)
        requires
            offset + 1 < MEMORY_SIZE,
        ensures
            final(self)@ == old(self)@.write_word(offset as int, word),
    {
        let high = word >> 8;
        let low = word & 0xFF;
        assert(high == word / 256 && low == word % 256 && high < 256) by (bit_vector)
            requires
                high == word >> 8,
                low == word & 0xFF,
        ;
        self.wb(offset, high as u8);
        self.wb(offset + 1, low as u8);
    }

    /// XORs `byte` into the framebuffer cell `(x, y)` and reports whether the cell held
    /// exactly `byte` before.
    pub fn wb_vram(&mut self, x: usize, y: usize, byte: u8) -> (same: bool)
        requires
            x + y * 64 < VRAM_SIZE,
        ensures
            final(self)@ == old(self)@.xor_pixel(x as int, y as int, byte),
            same == (old(self)@.pixel(x as int, y as int) == byte),
    {
        let offset = x + y * 64;
        let old_value = self.vram[offset];
        self.vram[offset] = old_value ^ byte;
        byte == old_value
    }

    /// Reads the framebuffer cell `(x, y)`.
    pub fn rb_vram(&self, x: usize, y: usize) -> (byte: u8)
        requires
            x + y * 64 < VRAM_SIZE,
        ensures
            byte == self@.pixel(x as int, y as int),
    {
        let offset = x + y * 64;
        self.vram[offset]
    }

    /// The cells that are lit, as `(x, y)` pairs, row by row and from left to right.
    pub fn lit_pixels(&self) -> (lit: Vec<(usize, usize)>)
        ensures
            lit@ == self@.lit_pixels(VRAM_SIZE as int),
    {
        let mut lit: Vec<(usize, usize)> = Vec::new();
        let mut p: usize = 0;
        while p < VRAM_SIZE
            invariant
                p <= VRAM_SIZE,
                lit@ == self@.lit_pixels(p as int),
            decreases VRAM_SIZE - p,
        {
            if self.vram[p] == 1 {
                lit.push((p % 64, p / 64));
            }
            p += 1;
        }
        lit
    }

    /// Sets every framebuffer cell to zero.
    pub fn clear_vram(&mut self)
        ensures
            final(self)@ == old(self)@.clear_pixels(),
    {
        let mut p: usize = 0;
        while p < VRAM_SIZE
            invariant
                p <= VRAM_SIZE,
                self.rom == old(self).rom,
                self.upper_rom == old(self).upper_rom,
                self.ram == old(self).ram,
                self.locked_rom == old(self).locked_rom,
                forall|q: int| 0 <= q < p ==> self.vram[q] == 0,
            decreases VRAM_SIZE - p,
        {
            self.vram[p] = 0;
            p += 1;
        }
    }

    /// Copies a program image to address `0x200` onwards, then locks the ROM.
    ///
    /// An image longer than the program region runs on into the working region; the
    /// bound on its length is the end of the address space.
    pub fn load_game(&mut self, game_content: &[u8])
        requires
            game_content@.len() <= UPPER_ROM_SIZE + RAM_SIZE,
        ensures
            final(self)@ == old(self)@.load(game_content@),
    {
        let len = game_content.len();
        let mut i: usize = 0;
        while i < len
            invariant
                i <= len,
                len == game_content@.len(),
                len <= UPPER_ROM_SIZE + RAM_SIZE,
                self.rom == old(self).rom,
                self.vram == old(self).vram,
                forall|j: int|
                    0 <= j < UPPER_ROM_SIZE ==> self.upper_rom[j] == if j < i {
                        game_content@[j]
                    } else {
                        old(self).upper_rom[j]
                    },
                forall|j: int|
                    0 <= j < RAM_SIZE ==> self.ram[j] == if j + UPPER_ROM_SIZE < i {
                        game_content@[j + UPPER_ROM_SIZE]
                    } else {
                        old(self).ram[j]
                    },
            decreases len - i,
        {
            let byte = game_content[i];
            if i < UPPER_ROM_SIZE {
                self.upper_rom[i] = byte;
            } else {
                self.ram[i - UPPER_ROM_SIZE] = byte;
            }
            i += 1;
        }
        self.lock_rom();
    }

    /// Engages the write lock on the program region. There is no way to release it.
    pub fn lock_rom(&mut self)
        ensures
            final(self)@ == old(self)@.lock(),
    {
        self.locked_rom = true;
    }

    /// Whether the write lock is engaged.
    pub fn locked_rom(&self) -> (locked: bool)
        ensures
            locked == self@.locked,
    {
        self.locked_rom
    }
}

} // verus!
