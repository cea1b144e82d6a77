use chip8::cpu::instruction::{AddressingMode, Instruction, Opcode};
use chip8::{CPU, MMU};

fn machine(image: &[u8]) -> CPU {
    let mut mmu = MMU::default();
    mmu.load_game(image);
    CPU::new(mmu)
}

fn run(cpu: &mut CPU, opcode: Opcode, mode: AddressingMode) {
    let instruction = Instruction(opcode, mode);
    assert!(cpu.can_execute(instruction), "{:?}", instruction);
    cpu.execute(instruction);
}

fn draw(cpu: &mut CPU, x: u8, y: u8, address: u16, rows: u8) {
    run(cpu, Opcode::LD, AddressingMode::VxImediate(1, x));
    run(cpu, Opcode::LD, AddressingMode::VxImediate(2, y));
    run(cpu, Opcode::LD, AddressingMode::IAddr(address));
    run(cpu, Opcode::DRW, AddressingMode::VxVyImediate(1, 2, rows));
}

#[test]
fn drw_draws_a_glyph_from_the_font() {
    let mut cpu = machine(&[]);
    // the glyph of 0: 0x60 0x90 0x90 0x90 0x60
    draw(&mut cpu, 10, 4, 0, 5);
    assert_eq!(
        cpu.bus().lit_pixels(),
        vec![
            (11, 4), (12, 4),
            (10, 5), (13, 5),
            (10, 6), (13, 6),
            (10, 7), (13, 7),
            (11, 8), (12, 8),
        ]
    );
    assert_eq!(cpu.register(0xF), 0);
    assert_eq!(cpu.index(), 0);
    assert_eq!(cpu.register(1), 10);
    assert_eq!(cpu.register(2), 4);
}

#[test]
fn drw_most_significant_bit_is_leftmost() {
    let mut cpu = machine(&[0x80, 0x01, 0xA5]);
    draw(&mut cpu, 0, 0, 0x200, 3);
    assert_eq!(
        cpu.bus().lit_pixels(),
        vec![(0, 0), (7, 1), (0, 2), (2, 2), (5, 2), (7, 2)]
    );
}

#[test]
fn drw_wraps_around_both_edges() {
    let mut cpu = machine(&[0xFF, 0xFF]);
    draw(&mut cpu, 60, 31, 0x200, 2);
    assert_eq!(
        cpu.bus().lit_pixels(),
        vec![
            (0, 0), (1, 0), (2, 0), (3, 0), (60, 0), (61, 0), (62, 0), (63, 0),
            (0, 31), (1, 31), (2, 31), (3, 31), (60, 31), (61, 31), (62, 31), (63, 31),
        ]
    );
    assert_eq!(cpu.register(0xF), 0);
}

#[test]
fn drw_takes_the_position_modulo_the_screen() {
    let mut cpu = machine(&[0x80]);
    draw(&mut cpu, 64 + 5, 32 * 3 + 2, 0x200, 1);
    assert_eq!(cpu.bus().lit_pixels(), vec![(5, 2)]);
    let mut cpu = machine(&[0x01]);
    draw(&mut cpu, 255, 255, 0x200, 1);
    assert_eq!(cpu.bus().lit_pixels(), vec![((255 + 7) % 64, 31)]);
}

#[test]
fn drw_reports_a_pixel_that_goes_dark() {
    let mut cpu = machine(&[0xF0, 0x0F, 0x10]);
    draw(&mut cpu, 0, 0, 0x200, 1);
    assert_eq!(cpu.register(0xF), 0);
    // no overlap: columns 4 to 7
    draw(&mut cpu, 0, 0, 0x201, 1);
    assert_eq!(cpu.register(0xF), 0);
    assert_eq!(cpu.bus().lit_pixels().len(), 8);
    // overlap in column 3 only
    draw(&mut cpu, 0, 0, 0x202, 1);
    assert_eq!(cpu.register(0xF), 1);
    assert_eq!(cpu.bus().rb_vram(3, 0), 0);
    assert_eq!(cpu.bus().lit_pixels().len(), 7);
    // the flag is reset by a draw without collision
    draw(&mut cpu, 0, 5, 0x200, 1);
    assert_eq!(cpu.register(0xF), 0);
}

#[test]
fn drw_without_rows_draws_nothing_and_clears_the_flag() {
    let mut cpu = machine(&[0xFF]);
    run(&mut cpu, Opcode::LD, AddressingMode::VxImediate(0xF, 9));
    draw(&mut cpu, 3, 3, 0x200, 0);
    assert!(cpu.bus().lit_pixels().is_empty());
    assert_eq!(cpu.register(0xF), 0);
}

#[test]
fn drw_of_an_empty_sprite_clears_the_flag() {
    let mut cpu = machine(&[0x00, 0x00]);
    run(&mut cpu, Opcode::LD, AddressingMode::VxImediate(0xF, 9));
    draw(&mut cpu, 3, 3, 0x200, 2);
    assert!(cpu.bus().lit_pixels().is_empty());
    assert_eq!(cpu.register(0xF), 0);
}

#[test]
fn drw_twice_restores_the_screen_at_every_position() {
    for y in 0..32u8 {
        for x in 0..64u8 {
            let mut cpu = machine(&[0x80, 0xF0, 0x90, 0x90, 0xF0]);
            // something on screen to collide with
            draw(&mut cpu, 30, 14, 0x201, 4);
            let before = cpu.bus().lit_pixels();

            draw(&mut cpu, x, y, 0x200, 1);
            let first_flag = cpu.register(0xF);
            let between = cpu.bus().rb_vram(x as usize, y as usize);
            assert_eq!(first_flag, (between == 0) as u8);

            draw(&mut cpu, x, y, 0x200, 1);
            assert_eq!(cpu.bus().lit_pixels(), before);
            assert_eq!(cpu.register(0xF), between);
        }
    }
}

#[test]
fn drw_twice_restores_the_screen_for_a_tall_sprite() {
    let image = vec![0xC3u8; 40];
    let mut cpu = machine(&image);
    draw(&mut cpu, 7, 3, 0, 5);
    let before = cpu.bus().lit_pixels();
    // 40 rows wrap onto themselves: rows 0 to 7 are drawn twice in one draw
    draw(&mut cpu, 5, 0, 0x200, 40);
    assert_ne!(cpu.bus().lit_pixels(), before);
    draw(&mut cpu, 5, 0, 0x200, 40);
    assert_eq!(cpu.bus().lit_pixels(), before);
}

#[test]
fn drw_of_a_sprite_that_wraps_onto_itself_collides_with_itself() {
    let image = vec![0x80u8; 33];
    let mut cpu = machine(&image);
    draw(&mut cpu, 0, 0, 0x200, 33);
    // row 32 lands on row 0 again and turns its pixel off
    assert_eq!(cpu.register(0xF), 1);
    assert_eq!(cpu.bus().rb_vram(0, 0), 0);
    assert_eq!(cpu.bus().lit_pixels().len(), 31);
}

#[test]
fn drw_needs_an_address_for_every_row() {
    let mut cpu = machine(&[]);
    run(&mut cpu, Opcode::LD, AddressingMode::IAddr(0xFFE));
    assert!(cpu.can_execute(Instruction(Opcode::DRW, AddressingMode::VxVyImediate(0, 0, 2))));
    assert!(!cpu.can_execute(Instruction(Opcode::DRW, AddressingMode::VxVyImediate(0, 0, 3))));
    run(&mut cpu, Opcode::LD, AddressingMode::IAddr(0x1000));
    assert!(cpu.can_execute(Instruction(Opcode::DRW, AddressingMode::VxVyImediate(0, 0, 0))));
    assert!(!cpu.can_execute(Instruction(Opcode::DRW, AddressingMode::VxVyImediate(0, 0, 1))));
    // a sprite without rows reads nothing, wherever the index register points
    run(&mut cpu, Opcode::LD, AddressingMode::IAddr(0xFFFF));
    run(&mut cpu, Opcode::DRW, AddressingMode::VxVyImediate(0, 0, 0));
    assert!(cpu.bus().lit_pixels().is_empty());
}

#[test]
fn drw_reads_the_position_before_it_clears_the_flag() {
    let mut cpu = machine(&[0x80]);
    run(&mut cpu, Opcode::LD, AddressingMode::VxImediate(0xF, 9));
    run(&mut cpu, Opcode::LD, AddressingMode::VxImediate(2, 4));
    run(&mut cpu, Opcode::LD, AddressingMode::IAddr(0x200));
    run(&mut cpu, Opcode::DRW, AddressingMode::VxVyImediate(0xF, 2, 1));
    assert_eq!(cpu.bus().lit_pixels(), vec![(9, 4)]);
    assert_eq!(cpu.register(0xF), 0);
}

#[test]
fn cls_darkens_the_screen_only() {
    let mut cpu = machine(&[0xFF]);
    draw(&mut cpu, 3, 3, 0x200, 1);
    run(&mut cpu, Opcode::LD, AddressingMode::VxImediate(0xF, 9));
    run(&mut cpu, Opcode::CLS, AddressingMode::Implicit);
    assert!(cpu.bus().lit_pixels().is_empty());
    assert_eq!(cpu.register(0xF), 9);
    assert_eq!(cpu.register(1), 3);
    assert_eq!(cpu.index(), 0x200);
    assert_eq!(cpu.bus().rb(0x200), 0xFF);
}
