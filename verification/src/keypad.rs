//! The 16-key pad and the keyboard keys that stand for it.
//!
//! The pad is laid out as on the left, and the block of keyboard keys on the right
//! takes its place, key for key:
//!
//! ```text
//! 1 2 3 C        1 2 3 4
//! 4 5 6 D        q w e r
//! 7 8 9 E        a s d f
//! A 0 B F        z x c v
//! ```

use vstd::prelude::*;

verus! {

/// Number of keys on the pad.
pub const KEY_COUNT: usize = 16;

/// The keys of the pad, row by row.
pub open spec fn pad_layout() -> Seq<u8> {
    seq![0x1u8, 0x2, 0x3, 0xC, 0x4, 0x5, 0x6, 0xD, 0x7, 0x8, 0x9, 0xE, 0xA, 0x0, 0xB, 0xF]
}

/// The keyboard keys that stand for the pad, row by row, each as the code of the
/// character that the key types.
pub open spec fn keyboard_layout() -> Seq<i32> {
    seq![
        0x31i32, 0x32, 0x33, 0x34,
        0x71, 0x77, 0x65, 0x72,
        0x61, 0x73, 0x64, 0x66,
        0x7A, 0x78, 0x63, 0x76,
    ]
}

/// The pad key that a keyboard key stands for: the key at the same place in the
/// layout, if the keyboard key is in the block.
pub open spec fn key_for(keycode: i32) -> Option<u8> {
    if keyboard_layout().contains(keycode) {
        Some(pad_layout()[keyboard_layout().index_of(keycode)])
    } else {
        None
    }
}

/// The pad key that the keyboard key with code `keycode` stands for. Key codes are the
/// codes of the characters that the keys type: `0x31` for the key `1`, `0x71` for `q`.
pub fn from_keycode(keycode: i32) -> (key: Option<u8>)
    ensures
        key == key_for(keycode),
        key matches Some(k) ==> k < KEY_COUNT,
{
    let key = match keycode {
        0x31 => Some(0x1),
        0x32 => Some(0x2),
        0x33 => Some(0x3),
        0x34 => Some(0xC),
        0x71 => Some(0x4),
        0x77 => Some(0x5),
        0x65 => Some(0x6),
        0x72 => Some(0xD),
        0x61 => Some(0x7),
        0x73 => Some(0x8),
        0x64 => Some(0x9),
        0x66 => Some(0xE),
        0x7A => Some(0xA),
        0x78 => Some(0x0),
        0x63 => Some(0xB),
        0x76 => Some(0xF),
        _ => None,
    };
    proof {
        lemma_layouts();
    }
    key
}

/// Both layouts have sixteen places, no keyboard key occurs twice, and every pad key
/// occurs.
pub proof fn lemma_layouts()
    ensures
        pad_layout().len() == KEY_COUNT,
        keyboard_layout().len() == KEY_COUNT,
        keyboard_layout().no_duplicates(),
        forall|key: u8| key < KEY_COUNT ==> pad_layout().contains(key),
{
}

/// Every pad key has exactly one keyboard key.
pub proof fn lemma_every_key_has_one_keycode(key: u8)
    requires
        key < KEY_COUNT,
    ensures
        exists|keycode: i32| key_for(keycode) == Some(key),
        forall|a: i32, b: i32| key_for(a) == Some(key) && key_for(b) == Some(key) ==> a == b,
{
    lemma_layouts();
    let place = pad_layout().index_of(key);
    assert(key_for(keyboard_layout()[place]) == Some(key));
}

} // verus!
