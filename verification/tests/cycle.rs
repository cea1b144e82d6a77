use chip8::cpu::instruction::{AddressingMode, Instruction, Opcode};
use chip8::cpu::Status;
use chip8::{CPU, MMU};

fn machine(image: &[u8]) -> CPU {
    let mut mmu = MMU::default();
    mmu.load_game(image);
    CPU::new(mmu)
}

fn step(cpu: &mut CPU) {
    assert!(cpu.can_cycle());
    cpu.cycle();
}

#[test]
fn cls_zeros_a_framebuffer_of_ones() {
    let mut mmu = MMU::default();
    for y in 0..32 {
        for x in 0..64 {
            mmu.wb_vram(x, y, 1);
        }
    }
    mmu.load_game(&[0x00, 0xE0]);
    let mut cpu = CPU::new(mmu);
    assert_eq!(cpu.bus().lit_pixels().len(), 64 * 32);
    step(&mut cpu);
    for y in 0..32 {
        for x in 0..64 {
            assert_eq!(cpu.bus().rb_vram(x, y), 0);
        }
    }
    assert_eq!(cpu.program_counter(), 0x202);
}

#[test]
fn jump_sets_the_program_counter() {
    let mut cpu = machine(&[0x1A, 0xBC]);
    step(&mut cpu);
    assert_eq!(cpu.program_counter(), 0x0ABC);
}

#[test]
fn load_immediate_sets_the_register() {
    let mut cpu = machine(&[0x6A, 0x15]);
    step(&mut cpu);
    assert_eq!(cpu.register(10), 0x15);
    assert_eq!(cpu.program_counter(), 0x202);
    for x in (0..16).filter(|&x| x != 10) {
        assert_eq!(cpu.register(x), 0);
    }
}

#[test]
fn draw_puts_a_four_row_sprite_on_screen() {
    let image = [
        0x6A, 0x05, // VA = 5
        0x6B, 0x03, // VB = 3
        0xA2, 0x0A, // I = 0x20A
        0xDA, 0xB4, // draw 4 rows at (VA, VB)
        0xDA, 0xB4, // and again
        0xF0, 0x90, 0x90, 0xF0,
    ];
    let mut cpu = machine(&image);
    for _ in 0..4 {
        step(&mut cpu);
    }
    assert_eq!(
        cpu.bus().lit_pixels(),
        vec![
            (5, 3), (6, 3), (7, 3), (8, 3),
            (5, 4), (8, 4),
            (5, 5), (8, 5),
            (5, 6), (6, 6), (7, 6), (8, 6),
        ]
    );
    assert_eq!(cpu.register(0xF), 0);
    assert_eq!(cpu.program_counter(), 0x208);

    step(&mut cpu);
    assert!(cpu.bus().lit_pixels().is_empty());
    assert_eq!(cpu.register(0xF), 1);
}

#[test]
fn key_wait_blocks_until_a_key_is_pressed() {
    let image = [
        0xF0, 0x0A, // V0 = key
        0x61, 0x07, // V1 = 7
    ];
    let mut cpu = machine(&image);
    step(&mut cpu);
    assert_eq!(cpu.status(), Status::WaitingKeypress(0));
    assert_eq!(cpu.program_counter(), 0x202);

    // cycles while waiting change nothing
    for _ in 0..5 {
        step(&mut cpu);
        assert_eq!(cpu.status(), Status::WaitingKeypress(0));
        assert_eq!(cpu.program_counter(), 0x202);
        assert_eq!(cpu.register(1), 0);
    }

    cpu.press_key(3);
    assert_eq!(cpu.register(0), 3);
    assert_eq!(cpu.status(), Status::Running);
    assert_eq!(cpu.keypad(), 1 << 3);
    assert_eq!(cpu.program_counter(), 0x202);

    step(&mut cpu);
    assert_eq!(cpu.register(1), 7);
    assert_eq!(cpu.program_counter(), 0x204);
}

#[test]
fn waiting_processor_can_cycle_over_any_word() {
    // what follows the wait is no instruction
    let mut cpu = machine(&[0xF5, 0x0A, 0xFF, 0xFF]);
    step(&mut cpu);
    assert_eq!(cpu.status(), Status::WaitingKeypress(5));
    assert!(cpu.can_cycle());
    cpu.cycle();
    assert_eq!(cpu.program_counter(), 0x202);
    cpu.press_key(9);
    assert_eq!(cpu.register(5), 9);
    assert!(!cpu.can_cycle());
}

#[test]
fn fetch_decodes_and_advances() {
    let mut cpu = machine(&[0x6A, 0x15, 0xD1, 0x23]);
    assert!(cpu.can_cycle());
    assert_eq!(cpu.fetch(), Instruction(Opcode::LD, AddressingMode::VxImediate(10, 0x15)));
    assert_eq!(cpu.program_counter(), 0x202);
    assert_eq!(cpu.register(10), 0);
    assert_eq!(cpu.fetch(), Instruction(Opcode::DRW, AddressingMode::VxVyImediate(1, 2, 3)));
    assert_eq!(cpu.program_counter(), 0x204);
}

#[test]
fn call_pushes_the_address_after_the_call() {
    let image = [
        0x22, 0x06, // call 0x206
        0x61, 0x01, // V1 = 1
        0x12, 0x04, // loop
        0x62, 0x02, // V2 = 2
        0x00, 0xEE, // return
    ];
    let mut cpu = machine(&image);
    step(&mut cpu);
    assert_eq!(cpu.program_counter(), 0x206);
    assert_eq!(cpu.stack_depth(), 1);
    step(&mut cpu);
    assert_eq!(cpu.register(2), 2);
    step(&mut cpu);
    assert_eq!(cpu.program_counter(), 0x202);
    assert_eq!(cpu.stack_depth(), 0);
    step(&mut cpu);
    assert_eq!(cpu.register(1), 1);
    step(&mut cpu);
    assert_eq!(cpu.program_counter(), 0x204);
}

#[test]
fn skip_passes_over_one_instruction() {
    let image = [
        0x30, 0x00, // skip if V0 == 0
        0x61, 0x01, // V1 = 1 (skipped)
        0x40, 0x00, // skip if V0 != 0
        0x62, 0x02, // V2 = 2
    ];
    let mut cpu = machine(&image);
    step(&mut cpu);
    assert_eq!(cpu.program_counter(), 0x204);
    step(&mut cpu);
    assert_eq!(cpu.program_counter(), 0x206);
    step(&mut cpu);
    assert_eq!(cpu.register(1), 0);
    assert_eq!(cpu.register(2), 2);
}

#[test]
fn key_skips_run_from_a_program() {
    let image = [
        0x60, 0x04, // V0 = 4
        0xE0, 0x9E, // skip if key 4 down
        0x61, 0x01, // V1 = 1 (skipped)
        0xE0, 0xA1, // skip if key 4 up
        0x62, 0x02, // V2 = 2
    ];
    let mut cpu = machine(&image);
    cpu.press_key(4);
    for _ in 0..4 {
        step(&mut cpu);
    }
    assert_eq!(cpu.register(1), 0);
    assert_eq!(cpu.register(2), 2);
    assert_eq!(cpu.program_counter(), 0x20A);
}

#[test]
fn arithmetic_runs_from_a_program() {
    let image = [
        0x61, 0xF0, // V1 = 0xF0
        0x62, 0x20, // V2 = 0x20
        0x81, 0x24, // V1 += V2
        0x83, 0x15, // V3 -= V1
        0x81, 0x1E, // V1 <<= 1
        0x74, 0xFF, // V4 += 0xFF
        0xF4, 0x1E, // I += V4
    ];
    let mut cpu = machine(&image);
    for _ in 0..3 {
        step(&mut cpu);
    }
    assert_eq!(cpu.register(1), 0x10);
    assert_eq!(cpu.register(0xF), 1);
    step(&mut cpu);
    assert_eq!(cpu.register(3), 0xF0);
    assert_eq!(cpu.register(0xF), 1);
    step(&mut cpu);
    assert_eq!(cpu.register(1), 0x20);
    assert_eq!(cpu.register(0xF), 0);
    step(&mut cpu);
    assert_eq!(cpu.register(4), 0xFF);
    step(&mut cpu);
    assert_eq!(cpu.index(), 0xFF);
}

#[test]
fn random_runs_from_a_program() {
    let mut cpu = machine(&[0xC3, 0x0F, 0x12, 0x00]);
    for _ in 0..100 {
        step(&mut cpu);
        assert!(cpu.register(3) <= 0x0F);
        step(&mut cpu);
        assert_eq!(cpu.program_counter(), 0x200);
    }
}

#[test]
fn cycle_cannot_run_on_a_word_that_is_no_instruction() {
    for image in [[0xFF, 0xFF], [0x51, 0x21], [0x81, 0x28], [0xE1, 0x00]] {
        let cpu = machine(&image);
        assert!(!cpu.can_cycle());
    }
}

#[test]
fn cycle_cannot_run_on_sys_or_subn() {
    for image in [[0x01, 0x23], [0x00, 0x00], [0x81, 0x27]] {
        let cpu = machine(&image);
        assert!(!cpu.can_cycle());
    }
}

#[test]
fn cycle_cannot_run_past_the_end_of_memory() {
    // jump to 0xFFF: the second byte of the word would lie at 0x1000
    let mut cpu = machine(&[0x1F, 0xFF]);
    step(&mut cpu);
    assert_eq!(cpu.program_counter(), 0xFFF);
    assert!(!cpu.can_cycle());
}

#[test]
fn cycle_runs_the_last_word_of_memory() {
    let mut image = vec![0u8; 0xE00];
    image[0] = 0x1F;
    image[1] = 0xFE;
    image[0xDFE] = 0x6A;
    image[0xDFF] = 0x15;
    let mut cpu = machine(&image);
    step(&mut cpu);
    step(&mut cpu);
    assert_eq!(cpu.register(10), 0x15);
    assert_eq!(cpu.program_counter(), 0x1000);
    assert!(!cpu.can_cycle());
}

#[test]
fn cycle_cannot_return_from_nowhere() {
    let cpu = machine(&[0x00, 0xEE]);
    assert!(!cpu.can_cycle());
}

#[test]
fn program_cannot_modify_itself() {
    let image = [
        0xA2, 0x06, // I = 0x206
        0x60, 0x12, // V0 = 0x12
        0xF0, 0x55, // store V0 at I
        0x6A, 0x15, // VA = 0x15
    ];
    let mut cpu = machine(&image);
    for _ in 0..4 {
        step(&mut cpu);
    }
    assert_eq!(cpu.bus().rb(0x206), 0x6A);
    assert_eq!(cpu.register(10), 0x15);
}

#[test]
fn program_from_the_boot_region_runs() {
    // the font bytes 0xF0 0x90 at 0x2D decode as LD V0, [I]
    let mut cpu = machine(&[0x10, 0x2D]);
    step(&mut cpu);
    assert_eq!(cpu.program_counter(), 0x02D);
    assert_eq!(cpu.bus().rw(0x02D), 0xF090);
    assert_eq!(cpu.can_cycle(), Instruction::decode(0xF090).is_some());
}

#[test]
fn run_cycles_runs_as_many_as_asked() {
    let image = [
        0x70, 0x01, // V0 += 1
        0x12, 0x00, // loop
    ];
    let mut cpu = machine(&image);
    assert_eq!(cpu.run_cycles(0), 0);
    assert_eq!(cpu.register(0), 0);
    assert_eq!(cpu.run_cycles(1), 1);
    assert_eq!(cpu.register(0), 1);
    assert_eq!(cpu.program_counter(), 0x202);
    assert_eq!(cpu.run_cycles(20), 20);
    // 21 cycles: the addition ran 11 times, the jump 10 times
    assert_eq!(cpu.register(0), 11);
    assert_eq!(cpu.program_counter(), 0x202);
}

#[test]
fn run_cycles_stops_before_a_cycle_that_cannot_run() {
    let image = [
        0x61, 0x01, // V1 = 1
        0x62, 0x02, // V2 = 2
        0xFF, 0xFF, // no instruction
        0x63, 0x03,
    ];
    let mut cpu = machine(&image);
    assert_eq!(cpu.run_cycles(20), 2);
    assert_eq!(cpu.register(1), 1);
    assert_eq!(cpu.register(2), 2);
    assert_eq!(cpu.register(3), 0);
    assert_eq!(cpu.program_counter(), 0x204);
    assert!(!cpu.can_cycle());
    assert_eq!(cpu.run_cycles(20), 0);
}

#[test]
fn run_cycles_idles_while_the_processor_waits() {
    let image = [
        0xF2, 0x0A, // V2 = key
        0x61, 0x01, // V1 = 1
        0x12, 0x04, // loop
    ];
    let mut cpu = machine(&image);
    assert_eq!(cpu.run_cycles(20), 20);
    assert_eq!(cpu.status(), Status::WaitingKeypress(2));
    assert_eq!(cpu.program_counter(), 0x202);
    assert_eq!(cpu.register(1), 0);
    cpu.press_key(0xC);
    assert_eq!(cpu.run_cycles(20), 20);
    assert_eq!(cpu.register(2), 0xC);
    assert_eq!(cpu.register(1), 1);
    assert_eq!(cpu.program_counter(), 0x204);
}
