//! The processor: registers, program counter, stack, timers and keypad, around the
//! memory unit that it owns.

pub mod instruction;
pub mod machine;
pub mod theorems;

use crate::mmu::{MEMORY_SIZE, MMU};
use instruction::{AddressingMode, Instruction, Opcode};
use machine::{Machine, REGISTER_COUNT, STACK_SIZE};
use vstd::pervasive::unreached;
use vstd::prelude::*;

verus! {

/// Whether the processor runs or waits.
#[derive(Debug, Clone, Copy, PartialEq, Eq, Structural)]
pub enum Status {
    /// Instructions are fetched and executed.
    Running,
    /// Nothing is executed until a key press has been stored in the register with this
    /// index.
    WaitingKeypress(usize),
}

/// The processor.
pub struct CPU {
    // general purpose registers (usually called Vx)
    v: [u8; REGISTER_COUNT],
    // program counter and stack pointer
    pc: u16,
    sp: u16,
    // generally used to store memory addresses
    i: u16,
    // delay and sound timers
    delay: u8,
    sound: u8,
    stack: [u16; STACK_SIZE],
    // one bit per key that is down
    keypad: u16,
    // memory bus
    bus: MMU,
    status: Status,
}

impl View for CPU {
    type V = Machine;

    closed spec fn view(&self) -> Machine {
        Machine {
            v: self.v@,
            pc: self.pc,
            i: self.i,
            stack: self.stack@.take(self.sp as int),
            delay: self.delay,
            sound: self.sound,
            keypad: self.keypad,
            status: self.status,
            bus: self.bus@,
        }
    }
}

impl CPU {
    /// The invariant of the representation: the stack pointer is within the stack and
    /// the slots above it are zero.
    pub closed spec fn inv(&self) -> bool {
        &&& self.sp <= STACK_SIZE
        &&& forall|j: int| self.sp <= j < STACK_SIZE ==> self.stack[j] == 0
    }

    /// The processor is well-formed: its representation is sound and its state is
    /// well-formed.
    pub open spec fn wf(&self) -> bool {
        &&& self.inv()
        &&& self@.wf()
    }

    /// Builds a processor around a memory unit that holds a program: its ROM must be
    /// locked. Execution starts at the first address of the program region.
    pub fn new(bus: MMU) -> (cpu: CPU)
        requires
            bus@.locked,
        ensures
            cpu.wf(),
            cpu@ == Machine::initial(bus@),
    {
        proof {
            bus.lemma_view_wf();
        }
        let cpu = CPU {
            v: [0u8; REGISTER_COUNT],
            pc: 0x200,
            sp: 0,
            i: 0,
            delay: 0,
            sound: 0,
            stack: [0u16; STACK_SIZE],
            keypad: 0,
            bus,
            status: Status::Running,
        };
        cpu
    }

    /// Whether the processor runs or waits for a key.
    pub fn status(&self) -> (status: Status)
        ensures
            status == self@.status,
    {
        self.status
    }

    /// The value of register `x`.
    pub fn register(&self, x: usize) -> (value: u8)
        requires
            x < REGISTER_COUNT,
        ensures
            value == self@.v[x as int],
    {
        self.v[x]
    }

    /// The program counter.
    pub fn program_counter(&self) -> (pc: u16)
        ensures
            pc == self@.pc,
    {
        self.pc
    }

    /// The index register.
    pub fn index(&self) -> (i: u16)
        ensures
            i == self@.i,
    {
        self.i
    }

    /// The number of return addresses on the stack.
    pub fn stack_depth(&self) -> (depth: usize)
        requires
            self.wf(),
        ensures
            depth == self@.stack.len(),
    {
        self.sp as usize
    }

    /// The delay timer.
    pub fn delay_timer(&self) -> (delay: u8)
        ensures
            delay == self@.delay,
    {
        self.delay
    }

    /// The sound timer.
    pub fn sound_timer(&self) -> (sound: u8)
        ensures
            sound == self@.sound,
    {
        self.sound
    }

    /// The keys that are down, one bit per key.
    pub fn keypad(&self) -> (keypad: u16)
        ensures
            keypad == self@.keypad,
    {
        self.keypad
    }

    /// The memory unit, to read memory and the framebuffer.
    pub fn bus(&self) -> (bus: &MMU)
        ensures
            bus@ == self@.bus,
    {
        &self.bus
    }

    /// Replaces the keypad mask: bit `k` says whether key `k` is down.
    pub fn set_keypad(&mut self, keypad: u16)
        requires
            old(self).wf(),
        ensures
            final(self).wf(),
            final(self)@ == old(self)@.with_keypad(keypad),
    {
        self.keypad = keypad;
    }

    /// Records that key `key` was pressed. If the processor waits for a key, the key
    /// goes to the register it waits for and the processor runs again. The key becomes
    /// the only key that is down.
    pub fn press_key(&mut self, key: u8)
        requires
            old(self).wf(),
            key < 16,
        ensures
            final(self).wf(),
            final(self)@ == old(self)@.after_key_press(key),
    {
        if let Status::WaitingKeypress(x) = self.status {
            self.v[x] = key;
            self.status = Status::Running;
        }
        self.keypad = 1u16 << key;
    }

    /// Counts both timers down by one. A timer that is zero stays zero.
    pub fn tick_timers(&mut self)
        requires
            old(self).wf(),
        ensures
            final(self).wf(),
            final(self)@ == old(self)@.after_tick(),
    {
        self.delay = self.delay.saturating_sub(1);
        self.sound = self.sound.saturating_sub(1);
    }

    /// Whether register `x` equals the other operand of SE or SNE.
    fn operands_equal(&self, addressing_mode: AddressingMode) -> (equal: bool)
        requires
            addressing_mode.wf(),
        ensures
            equal == self@.operands_equal(addressing_mode),
    {
        match addressing_mode {
            AddressingMode::VxImediate(x, kk) => self.v[x] == kk,
            AddressingMode::VxVy(x, y) => self.v[x] == self.v[y],
            _ => false,
        }
    }

    /// Whether a skip leaves the program counter in range.
    fn can_skip_if(&self, skip: bool) -> (ok: bool)
        ensures
            ok == self@.can_skip_if(skip),
    {
        !skip || self.pc <= u16::MAX - 2
    }

    /// Whether `instruction` can be executed in the present state: whether
    /// [`CPU::execute`] may be called with it.
    pub fn can_execute(&self, instruction: Instruction) -> (ok: bool)
        requires
            self.wf(),
        ensures
            ok == self@.executable(instruction),
    {
        let Instruction(opcode, mode) = instruction;
        let registers_exist = mode.registers_exist();
        let i = self.i as usize;

        match opcode {
            Opcode::CLS => true,
            Opcode::JP => match mode {
                AddressingMode::Addr(_) => true,
                AddressingMode::V0Addr(_) => true,
                _ => false,
            },
            Opcode::LD => registers_exist && match mode {
                AddressingMode::VxImediate(_, _) => true,
                AddressingMode::VxVy(_, _) => true,
                AddressingMode::IAddr(_) => true,
                AddressingMode::VxDT(_) => true,
                AddressingMode::VxKey(_) => true,
                AddressingMode::DTVx(_) => true,
                AddressingMode::STVx(_) => true,
                AddressingMode::FVx(_) => true,
                AddressingMode::BVx(_) => i + 2 < MEMORY_SIZE,
                AddressingMode::MemVx(x) => i + x < MEMORY_SIZE,
                AddressingMode::VxMem(x) => i + x < MEMORY_SIZE,
                _ => false,
            },
            Opcode::DRW => registers_exist && match mode {
                AddressingMode::VxVyImediate(_, _, n) => n == 0 || i + n as usize <= MEMORY_SIZE,
                _ => false,
            },
            Opcode::ADD => registers_exist && match mode {
                AddressingMode::VxImediate(_, _) => true,
                AddressingMode::VxVy(_, _) => true,
                AddressingMode::IVx(_) => true,
                _ => false,
            },
            Opcode::SUB | Opcode::OR | Opcode::AND | Opcode::XOR => registers_exist && match mode {
                AddressingMode::VxVy(_, _) => true,
                _ => false,
            },
            Opcode::SHL | Opcode::SHR => match mode {
                AddressingMode::VxVy(x, _) => x < REGISTER_COUNT,
                _ => false,
            },
            Opcode::SE => registers_exist && match mode {
                AddressingMode::VxImediate(_, _) | AddressingMode::VxVy(_, _) => self.can_skip_if(
                    self.operands_equal(mode),
                ),
                _ => false,
            },
            Opcode::SNE => registers_exist && match mode {
                AddressingMode::VxImediate(_, _) | AddressingMode::VxVy(_, _) => self.can_skip_if(
                    !self.operands_equal(mode),
                ),
                _ => false,
            },
            Opcode::CALL => match mode {
                AddressingMode::Addr(_) => (self.sp as usize) < STACK_SIZE,
                _ => false,
            },
            Opcode::RET => match mode {
                AddressingMode::Implicit => self.sp > 0,
                _ => false,
            },
            Opcode::RND => registers_exist && match mode {
                AddressingMode::VxImediate(_, _) => true,
                _ => false,
            },
            Opcode::SKP => registers_exist && match mode {
                AddressingMode::Vx(x) => self.can_skip_if(self.is_key_down(self.v[x])),
                _ => false,
            },
            Opcode::SKNP => registers_exist && match mode {
                AddressingMode::Vx(x) => self.can_skip_if(!self.is_key_down(self.v[x])),
                _ => false,
            },
            Opcode::SYS => false,
            Opcode::SUBN => false,
        }
    }

    /// Whether a cycle can run in the present state: whether [`CPU::cycle`] may be
    /// called. It cannot where the program counter is at the end of memory, where the
    /// word there encodes no instruction, and where the instruction cannot be executed.
    pub fn can_cycle(&self) -> (ok: bool)
        requires
            self.wf(),
        ensures
            ok == self@.can_cycle(),
    {
        match self.status {
            Status::WaitingKeypress(_) => true,
            Status::Running => {
                let pc = self.pc as usize;
                if pc + 1 < MEMORY_SIZE {
                    match Instruction::decode(self.bus.rw(pc)) {
                        Some(instruction) => self.can_execute(instruction),
                        None => false,
                    }
                } else {
                    false
                }
            },
        }
    }

    /// Whether key `key` is down.
    pub fn is_key_down(&self, key: u8) -> (down: bool)
        ensures
            down == self@.key_down(key),
    {
        key < 16 && (self.keypad & (1u16 << key)) != 0
    }

    /// Pushes a word onto the stack.
    fn push_stack(&mut self, word: u16)
        requires
            old(self).wf(),
            old(self)@.stack.len() < STACK_SIZE,
        ensures
            final(self).wf(),
            final(self)@ == (Machine { stack: old(self)@.stack.push(word), ..old(self)@ }),
    {
        self.stack[self.sp as usize] = word;
        self.sp += 1;
    }

    /// Pops a word from the stack and clears the slot that held it.
    fn pop_stack(&mut self) -> (word: u16)
        requires
            old(self).wf(),
            old(self)@.stack.len() > 0,
        ensures
            final(self).wf(),
            word == old(self)@.stack.last(),
            final(self)@ == (Machine { stack: old(self)@.stack.drop_last(), ..old(self)@ }),
    {
        self.sp -= 1;
        let sp = self.sp as usize;
        let word = self.stack[sp];
        self.stack[sp] = 0;
        word
    }

    /// Fetches and decodes the instruction at the program counter, and moves the
    /// program counter past it.
    pub fn fetch(&mut self) -> (instruction: Instruction)
        requires
            old(self).wf(),
            old(self)@.can_fetch(),
        ensures
            final(self).wf(),
            instruction == old(self)@.next_instruction(),
            final(self)@ == old(self)@.after_fetch(),
    {
        let opcode = self.bus.rw(self.pc as usize);
        let instruction = Instruction::from(opcode);

        self.pc += 2;

        instruction
    }

    /// Executes a decoded instruction. Only RND leaves anything open: the byte it draws.
    /// [`CPU::can_execute`] tells whether the instruction can be executed.
    pub fn execute(&mut self, instruction: Instruction)
        requires
            old(self).wf(),
            old(self)@.executable(instruction),
        ensures
            final(self).wf(),
            exists|sample: u8| final(self)@ == old(self)@.after_execute(instruction, sample),
            instruction.0 != Opcode::RND ==> forall|sample: u8|
                final(self)@ == old(self)@.after_execute(instruction, sample),
    {
        let Instruction(opcode, addressing_mode) = instruction;

        match opcode {
            Opcode::CLS => self.exec_cls(),
            Opcode::JP => self.exec_jp(addressing_mode),
            Opcode::LD => self.exec_ld(addressing_mode),
            Opcode::DRW => self.exec_drw(addressing_mode),
            Opcode::ADD => self.exec_add(addressing_mode),
            Opcode::SUB => self.exec_sub(addressing_mode),
            Opcode::OR => self.exec_or(addressing_mode),
            Opcode::AND => self.exec_and(addressing_mode),
            Opcode::XOR => self.exec_xor(addressing_mode),
            Opcode::SHL => self.exec_shl(addressing_mode),
            Opcode::SHR => self.exec_shr(addressing_mode),
            Opcode::SE => self.exec_se(addressing_mode),
            Opcode::SNE => self.exec_sne(addressing_mode),
            Opcode::CALL => self.exec_call(addressing_mode),
            Opcode::RET => self.exec_ret(addressing_mode),
            Opcode::RND => self.exec_rnd(addressing_mode),
            Opcode::SKP => self.exec_skp(addressing_mode),
            Opcode::SKNP => self.exec_sknp(addressing_mode),
            _ => unreached(),
        }
        proof {
            if opcode == Opcode::RND {
                let sample = choose|sample: u8|
                    self@ == old(self)@.after_rnd(addressing_mode, sample);
                assert(self@ == old(self)@.after_execute(instruction, sample));
            } else {
                assert(self@ == old(self)@.after_execute(instruction, 0));
            }
        }
    }

    /// Performs one cycle: fetch, decode, execute. While the processor waits for a key
    /// a cycle does nothing. [`CPU::can_cycle`] tells whether a cycle can run.
    pub fn cycle(&mut self)
        requires
            old(self).wf(),
            old(self)@.can_cycle(),
        ensures
            final(self).wf(),
            exists|sample: u8| final(self)@ == old(self)@.after_cycle(sample),
            !old(self)@.draws_sample() ==> forall|sample: u8|
                final(self)@ == old(self)@.after_cycle(sample),
    {
        match self.status {
            Status::WaitingKeypress(_) => {
                assert(self@ == old(self)@.after_cycle(0));
            },
            Status::Running => {
                let instruction = self.fetch();
                let ghost fetched = self@;
                self.execute(instruction);
                proof {
                    let sample = choose|sample: u8|
                        self@ == fetched.after_execute(instruction, sample);
                    assert(self@ == old(self)@.after_cycle(sample));
                }
            },
        }
    }

    /// Runs up to `count` cycles, and stops before the first that cannot run. The result
    /// is the number of cycles that ran: it is `count` unless a cycle could not run.
    pub fn run_cycles(&mut self, count: usize) -> (ran: usize)
        requires
            old(self).wf(),
        ensures
            final(self).wf(),
            ran <= count,
            ran < count ==> !final(self)@.can_cycle(),
            exists|samples: Seq<u8>|
                {
                    &&& samples.len() == ran
                    &&& old(self)@.can_run(samples)
                    &&& final(self)@ == #[trigger] old(self)@.after_cycles(samples)
                },
    {
        let ghost mut samples: Seq<u8> = Seq::empty();
        let mut ran: usize = 0;
        while ran < count && self.can_cycle()
            invariant
                ran <= count,
                self.wf(),
                samples.len() == ran,
                old(self)@.can_run(samples),
                self@ == old(self)@.after_cycles(samples),
            decreases count - ran,
        {
            let ghost before = self@;
            self.cycle();
            ran += 1;
            proof {
                let sample = choose|sample: u8| self@ == before.after_cycle(sample);
                old(self)@.lemma_one_more_cycle(samples, sample);
                samples = samples.push(sample);
            }
        }
        ran
    }
}

} // verus!
