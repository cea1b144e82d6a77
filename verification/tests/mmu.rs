use chip8::mmu::{CH8_FONT, MMU};

fn loaded(image: &[u8]) -> MMU {
    let mut mmu = MMU::default();
    mmu.load_game(image);
    mmu
}

#[test]
fn fresh_unit_holds_the_font_and_zeros() {
    let mmu = MMU::default();
    for a in 0..0x50 {
        assert_eq!(mmu.rb(a), CH8_FONT[a]);
    }
    for a in 0x50..0x1000 {
        assert_eq!(mmu.rb(a), 0);
    }
    assert!(!mmu.locked_rom());
}

#[test]
fn font_has_the_glyphs_of_zero_and_f() {
    assert_eq!(CH8_FONT.len(), 80);
    assert_eq!(&CH8_FONT[0..5], &[0x60, 0x90, 0x90, 0x90, 0x60]);
    assert_eq!(&CH8_FONT[75..80], &[0xF0, 0x80, 0xF0, 0x80, 0x80]);
}

#[test]
fn fresh_screen_is_dark() {
    let mmu = MMU::default();
    for y in 0..32 {
        for x in 0..64 {
            assert_eq!(mmu.rb_vram(x, y), 0);
        }
    }
    assert!(mmu.lit_pixels().is_empty());
}

#[test]
fn byte_write_is_routed_to_each_region() {
    let mut mmu = MMU::default();
    mmu.wb(0x000, 0x11);
    mmu.wb(0x1FF, 0x12);
    mmu.wb(0x200, 0x21);
    mmu.wb(0x5FF, 0x22);
    mmu.wb(0x600, 0x31);
    mmu.wb(0xFFF, 0x32);
    assert_eq!(mmu.rb(0x000), 0x11);
    assert_eq!(mmu.rb(0x1FF), 0x12);
    assert_eq!(mmu.rb(0x200), 0x21);
    assert_eq!(mmu.rb(0x5FF), 0x22);
    assert_eq!(mmu.rb(0x600), 0x31);
    assert_eq!(mmu.rb(0xFFF), 0x32);
    // the neighbours are untouched
    assert_eq!(mmu.rb(0x001), CH8_FONT[1]);
    assert_eq!(mmu.rb(0x201), 0);
    assert_eq!(mmu.rb(0x5FE), 0);
    assert_eq!(mmu.rb(0x601), 0);
}

#[test]
fn words_are_big_endian() {
    let mut mmu = MMU::default();
    mmu.ww(0x700, 0xABCD);
    assert_eq!(mmu.rb(0x700), 0xAB);
    assert_eq!(mmu.rb(0x701), 0xCD);
    assert_eq!(mmu.rw(0x700), 0xABCD);
    mmu.wb(0x702, 0x12);
    assert_eq!(mmu.rw(0x701), 0xCD12);
}

#[test]
fn word_across_two_regions() {
    let mut mmu = MMU::default();
    mmu.ww(0x1FF, 0x1234);
    assert_eq!(mmu.rb(0x1FF), 0x12);
    assert_eq!(mmu.rb(0x200), 0x34);
    mmu.ww(0x5FF, 0x5678);
    assert_eq!(mmu.rb(0x5FF), 0x56);
    assert_eq!(mmu.rb(0x600), 0x78);
    assert_eq!(mmu.rw(0xFFE), 0);
}

#[test]
fn loaded_image_is_read_back() {
    let image: Vec<u8> = (0..1024u32).map(|i| (i * 7 + 3) as u8).collect();
    let mmu = loaded(&image);
    for (i, &byte) in image.iter().enumerate() {
        assert_eq!(mmu.rb(0x200 + i), byte);
    }
    assert!(mmu.locked_rom());
}

#[test]
fn short_image_leaves_the_rest_of_the_program_region() {
    let mmu = loaded(&[0xAA, 0xBB, 0xCC]);
    assert_eq!(mmu.rb(0x200), 0xAA);
    assert_eq!(mmu.rb(0x201), 0xBB);
    assert_eq!(mmu.rb(0x202), 0xCC);
    assert_eq!(mmu.rb(0x203), 0);
    assert_eq!(mmu.rb(0x5FF), 0);
}

#[test]
fn load_keeps_the_font() {
    let image = vec![0xFFu8; 1024];
    let mmu = loaded(&image);
    for a in 0..0x50 {
        assert_eq!(mmu.rb(a), CH8_FONT[a]);
    }
    for a in 0x50..0x200 {
        assert_eq!(mmu.rb(a), 0);
    }
}

#[test]
fn empty_image_only_locks() {
    let mmu = loaded(&[]);
    assert!(mmu.locked_rom());
    for a in 0x200..0x1000 {
        assert_eq!(mmu.rb(a), 0);
    }
}

#[test]
fn oversized_image_runs_on_into_working_memory() {
    let image: Vec<u8> = (0..0x402u32).map(|i| (i % 251) as u8 + 1).collect();
    let mmu = loaded(&image);
    assert_eq!(mmu.rb(0x5FF), image[0x3FF]);
    assert_eq!(mmu.rb(0x600), image[0x400]);
    assert_eq!(mmu.rb(0x601), image[0x401]);
    assert_eq!(mmu.rb(0x602), 0);
}

#[test]
fn largest_image_fills_memory_to_the_end() {
    let image = vec![0x5Au8; 0xE00];
    let mmu = loaded(&image);
    assert_eq!(mmu.rb(0x1FF), 0);
    assert_eq!(mmu.rb(0x200), 0x5A);
    assert_eq!(mmu.rb(0xFFF), 0x5A);
}

#[test]
fn program_write_after_load_is_ignored() {
    let mut image = vec![0u8; 0x100];
    image[0x50] = 0x77;
    let mut mmu = loaded(&image);
    assert_eq!(mmu.rb(0x250), 0x77);
    mmu.wb(0x250, 0x99);
    assert_eq!(mmu.rb(0x250), 0x77);
}

#[test]
fn program_region_is_locked_from_end_to_end() {
    let mut mmu = loaded(&[1, 2, 3]);
    mmu.wb(0x200, 0xEE);
    mmu.wb(0x5FF, 0xEE);
    assert_eq!(mmu.rb(0x200), 1);
    assert_eq!(mmu.rb(0x5FF), 0);
}

#[test]
fn boot_and_working_regions_stay_writable_after_load() {
    let mut mmu = loaded(&[1, 2, 3]);
    mmu.wb(0x1FF, 0x42);
    mmu.wb(0x000, 0x43);
    mmu.wb(0x600, 0x44);
    mmu.wb(0xFFF, 0x45);
    assert_eq!(mmu.rb(0x1FF), 0x42);
    assert_eq!(mmu.rb(0x000), 0x43);
    assert_eq!(mmu.rb(0x600), 0x44);
    assert_eq!(mmu.rb(0xFFF), 0x45);
}

#[test]
fn word_write_into_locked_region_is_ignored_byte_by_byte() {
    let mut mmu = loaded(&[]);
    mmu.ww(0x5FF, 0xABCD);
    assert_eq!(mmu.rb(0x5FF), 0);
    assert_eq!(mmu.rb(0x600), 0xCD);
    mmu.ww(0x1FF, 0x1234);
    assert_eq!(mmu.rb(0x1FF), 0x12);
    assert_eq!(mmu.rb(0x200), 0);
}

#[test]
fn lock_without_load() {
    let mut mmu = MMU::default();
    mmu.wb(0x300, 5);
    mmu.lock_rom();
    assert!(mmu.locked_rom());
    mmu.wb(0x300, 6);
    assert_eq!(mmu.rb(0x300), 5);
    mmu.lock_rom();
    assert!(mmu.locked_rom());
}

#[test]
fn second_load_replaces_the_image() {
    let mut mmu = loaded(&[1, 2, 3]);
    mmu.load_game(&[9, 8]);
    assert_eq!(mmu.rb(0x200), 9);
    assert_eq!(mmu.rb(0x201), 8);
    assert_eq!(mmu.rb(0x202), 3);
    assert!(mmu.locked_rom());
}

#[test]
fn pixel_xor_reports_an_equal_cell() {
    let mut mmu = MMU::default();
    // dark cell, bit 1: the cell differs from the bit
    assert!(!mmu.wb_vram(3, 2, 1));
    assert_eq!(mmu.rb_vram(3, 2), 1);
    // lit cell, bit 1: the cell equals the bit and goes dark
    assert!(mmu.wb_vram(3, 2, 1));
    assert_eq!(mmu.rb_vram(3, 2), 0);
    // dark cell, bit 0: equal, and nothing changes
    assert!(mmu.wb_vram(3, 2, 0));
    assert_eq!(mmu.rb_vram(3, 2), 0);
}

#[test]
fn pixel_offset_is_x_plus_64_y() {
    let mut mmu = MMU::default();
    mmu.wb_vram(63, 31, 1);
    mmu.wb_vram(0, 1, 1);
    // the same cells, addressed through row 0
    assert_eq!(mmu.rb_vram(63 + 31 * 64, 0), 1);
    assert_eq!(mmu.rb_vram(64, 0), 1);
    assert_eq!(mmu.rb_vram(0, 0), 0);
}

#[test]
fn pixel_xor_twice_restores_every_cell() {
    for y in 0..32 {
        for x in 0..64 {
            let mut mmu = MMU::default();
            mmu.wb_vram(10, 10, 1);
            let before = mmu.rb_vram(x, y);
            mmu.wb_vram(x, y, 1);
            let between = mmu.rb_vram(x, y);
            let collision = mmu.wb_vram(x, y, 1);
            assert_eq!(mmu.rb_vram(x, y), before);
            assert_eq!(collision, between == 1);
            assert_eq!(mmu.lit_pixels(), vec![(10, 10)]);
        }
    }
}

#[test]
fn pixel_xor_of_a_whole_byte() {
    let mut mmu = MMU::default();
    assert!(!mmu.wb_vram(0, 0, 0xF0));
    assert_eq!(mmu.rb_vram(0, 0), 0xF0);
    assert!(!mmu.wb_vram(0, 0, 0x3C));
    assert_eq!(mmu.rb_vram(0, 0), 0xCC);
    assert!(mmu.wb_vram(0, 0, 0xCC));
    assert_eq!(mmu.rb_vram(0, 0), 0);
}

#[test]
fn lit_pixels_come_row_by_row() {
    let mut mmu = MMU::default();
    mmu.wb_vram(5, 3, 1);
    mmu.wb_vram(63, 0, 1);
    mmu.wb_vram(0, 0, 1);
    mmu.wb_vram(0, 31, 1);
    mmu.wb_vram(7, 7, 2);
    assert_eq!(mmu.lit_pixels(), vec![(0, 0), (63, 0), (5, 3), (0, 31)]);
}

#[test]
fn clear_vram_darkens_the_screen_and_keeps_memory() {
    let mut mmu = loaded(&[1, 2, 3]);
    for y in 0..32 {
        for x in 0..64 {
            mmu.wb_vram(x, y, 1);
        }
    }
    assert_eq!(mmu.lit_pixels().len(), 2048);
    mmu.clear_vram();
    assert!(mmu.lit_pixels().is_empty());
    assert_eq!(mmu.rb(0x201), 2);
    assert_eq!(mmu.rb(1), CH8_FONT[1]);
    assert!(mmu.locked_rom());
}
