//! Key tables of the Wooting Two HE (ARM) keyboard (ISO model).

use vstd::prelude::*;

verus! {

/// Key index of each evdev key code that the keyboard has, as pairs
/// `(key code, key index)` in increasing order of the key code. Every other
/// key code has no key (index 255).
pub const EV_KEY_INDICES_ISO: [(u16, u8); 84] = [
    (1, 2), (2, 8), (3, 14), (4, 21), (5, 26), (6, 31),
    (7, 36), (8, 41), (9, 48), (10, 54), (11, 60), (12, 66),
    (13, 72), (14, 80), (15, 4), (16, 9), (17, 15), (18, 22),
    (19, 27), (20, 32), (21, 37), (22, 42), (23, 49), (24, 55),
    (25, 61), (26, 67), (27, 73), (28, 82), (29, 1), (30, 10),
    (31, 16), (32, 23), (33, 28), (34, 33), (35, 38), (36, 43),
    (37, 50), (38, 56), (39, 62), (40, 68), (41, 3), (42, 0),
    (43, 74), (44, 11), (45, 17), (46, 24), (47, 29), (48, 34),
    (49, 39), (50, 44), (51, 51), (52, 57), (53, 63), (54, 75),
    (56, 12), (57, 35), (58, 5), (59, 13), (60, 20), (61, 25),
    (62, 30), (63, 40), (64, 47), (65, 53), (66, 59), (67, 65),
    (68, 71), (86, 6), (87, 77), (88, 79), (97, 76), (100, 58),
    (102, 88), (103, 90), (104, 93), (105, 86), (106, 95), (107, 89),
    (108, 91), (109, 94), (110, 84), (111, 85), (125, 7), (127, 70),
];

/// Number of entries of a row of `ROWS_TOPOLOGY`.
pub const ROW_LEN: usize = 17;

/// Number of entries of a column of `COLS_TOPOLOGY`.
pub const COL_LEN: usize = 6;

/// Number of columns of `COLS_TOPOLOGY`.
pub const TOPOLOGY_COLUMNS: usize = 18;

/// A row without keys.
pub const EMPTY_ROW: [u8; 17] = [255, 255, 255, 255, 255, 255, 255, 255, 255, 255, 255, 255, 255, 255, 255, 255, 255];

/// A column without keys.
pub const EMPTY_COLUMN: [u8; 6] = [255, 255, 255, 255, 255, 255];

/// Key indices of the keys in each row, 17 entries per row; 255 marks a
/// position without a key.
pub const ROWS_TOPOLOGY: [u8; 102] = [
      2,  13,  20,  25,  30,  40,  47,  53,  59,  65,  71,  77,  79,  92, 255, 255, 255,
      3,   8,  14,  21,  26,  31,  36,  41,  48,  54,  60,  66,  72,  80,  84,  88,  93,
      4,   9,  15,  22,  27,  32,  37,  42,  49,  55,  61,  67,  73,  82,  85,  89,  94,
      5,  10,  16,  23,  28,  33,  38,  43,  50,  56,  62,  68,  74, 255, 255, 255, 255,
      0,   6,  11,  17,  24,  29,  34,  39,  44,  51,  57,  63,  75, 255,  90, 255, 255,
      1,   7,  12,  35,  58,  64,  70,  76,  86,  91,  95,  64, 255, 255, 255, 255, 255,
];

/// Key indices of the keys in each column, 6 entries per column; 255 marks
/// a position without a key.
pub const COLS_TOPOLOGY: [u8; 108] = [
      2,   3,   4,   5,   0,   1,
      8,   9,  10,   6,   7, 255,
     13,  14,  15,  16,  11,  12,
     20,  21,  22,  23,  17, 255,
     25,  26,  27,  28,  24, 255,
     30,  31,  32,  33,  29, 255,
    255,  36,  37,  38,  34,  35,
     40,  41,  42,  43,  39, 255,
     47,  48,  49,  50,  44, 255,
     53,  54,  55,  56,  51, 255,
     59,  60,  61,  62,  57,  58,
     65,  66,  67,  68,  63,  64,
     71,  72,  73,  74,  75,  70,
     77,  80,  82, 255,  76, 255,
     79,  84,  85, 255, 255,  86,
     92,  88,  89, 255,  90,  91,
    255,  93,  94, 255,  64,  95,
    255, 255, 255, 255, 255, 255,
];

/// The key index of a key code in a list of `(key code, key index)` pairs:
/// that of the first pair with this code, 255 if there is none.
pub open spec fn spec_key_index_lookup(pairs: Seq<(u16, u8)>, code: int) -> u8
    decreases pairs.len(),
{
    if pairs.len() == 0 {
        255u8
    } else if pairs[0].0 == code {
        pairs[0].1
    } else {
        spec_key_index_lookup(pairs.drop_first(), code)
    }
}

/// The key index of an evdev key code (ISO model); 255 for a code that has
/// no key.
pub open spec fn spec_ev_key_index_iso(code: int) -> u8 {
    spec_key_index_lookup(EV_KEY_INDICES_ISO@, code)
}

/// Looks up the key index of an evdev key code (ISO model).
pub fn ev_key_index_iso(code: u32) -> (r: u8)
    ensures
        r == spec_ev_key_index_iso(code as int),
{
    let mut i: usize = 0;
    assert(EV_KEY_INDICES_ISO@.subrange(0, EV_KEY_INDICES_ISO@.len() as int) =~= EV_KEY_INDICES_ISO@);
    while i < EV_KEY_INDICES_ISO.len()
        invariant
            i <= EV_KEY_INDICES_ISO@.len(),
            spec_key_index_lookup(EV_KEY_INDICES_ISO@, code as int)
                == spec_key_index_lookup(EV_KEY_INDICES_ISO@.subrange(i as int, EV_KEY_INDICES_ISO@.len() as int), code as int),
        decreases EV_KEY_INDICES_ISO@.len() - i,
    {
        let (key_code, index) = EV_KEY_INDICES_ISO[i];
        assert(EV_KEY_INDICES_ISO@.subrange(i as int, EV_KEY_INDICES_ISO@.len() as int).drop_first()
            =~= EV_KEY_INDICES_ISO@.subrange(i + 1, EV_KEY_INDICES_ISO@.len() as int));
        if key_code as u32 == code {
            return index;
        }
        i = i + 1;
    }
    255
}

} // verus!
