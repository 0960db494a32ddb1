use vstd::prelude::*;

verus! {

/// Width in bits of one encoded name symbol.
pub const CHAR_BIT_LENGTH: u8 = 5;

/// The name alphabet: each entry pairs a symbol (1 to 31) with its ASCII byte,
/// the digits `0`-`4` first, then the letters `a`-`z`.
/// Symbol 0 is not listed: it pads names shorter than four characters.
pub const CHAR_MAPPING: [(u8, u8); 31] = [
    (1, 48), (2, 49), (3, 50), (4, 51), (5, 52),
    (6, 97), (7, 98), (8, 99), (9, 100), (10, 101), (11, 102), (12, 103), (13, 104),
    (14, 105), (15, 106), (16, 107), (17, 108), (18, 109), (19, 110), (20, 111),
    (21, 112), (22, 113), (23, 114), (24, 115), (25, 116), (26, 117), (27, 118),
    (28, 119), (29, 120), (30, 121), (31, 122),
];

/// The ASCII code of symbol `k`, for `k` in `1..=31`.
pub open spec fn symbol_byte(k: int) -> int {
    if k <= 5 { 47 + k } else { 91 + k }
}

/// The symbol of a character: `1..=31` for a character of the alphabet, 0 for any other.
pub open spec fn symbol_of(c: char) -> int {
    let b = c as int;
    if 48 <= b <= 52 {
        b - 47
    } else if 97 <= b <= 122 {
        b - 91
    } else {
        0
    }
}

pub open spec fn in_alphabet(c: char) -> bool {
    symbol_of(c) != 0
}

/// Entry `k` of the table holds symbol `k + 1` and its byte.
pub proof fn lemma_char_mapping(k: int)
    requires
        0 <= k < 31,
    ensures
        CHAR_MAPPING@[k].0 as int == k + 1,
        CHAR_MAPPING@[k].1 as int == symbol_byte(k + 1),
{
    assert(CHAR_MAPPING@ =~= seq![
        (1u8, 48u8), (2, 49), (3, 50), (4, 51), (5, 52),
        (6, 97), (7, 98), (8, 99), (9, 100), (10, 101), (11, 102), (12, 103), (13, 104),
        (14, 105), (15, 106), (16, 107), (17, 108), (18, 109), (19, 110), (20, 111),
        (21, 112), (22, 113), (23, 114), (24, 115), (25, 116), (26, 117), (27, 118),
        (28, 119), (29, 120), (30, 121), (31, 122),
    ]);
}

/// Walking the table in order, both the symbols and their bytes strictly increase.
pub proof fn lemma_alphabet_ordered(i: int, j: int)
    requires
        0 <= i < j < 31,
    ensures
        CHAR_MAPPING@[i].0 < CHAR_MAPPING@[j].0,
        CHAR_MAPPING@[i].1 < CHAR_MAPPING@[j].1,
{
    lemma_char_mapping(i);
    lemma_char_mapping(j);
}

/// The symbol of `c`, looked up in the table; `None` where `c` is not in the alphabet.
pub fn encode_char(c: char) -> (r: Option<u8>)
    ensures
        r == (if in_alphabet(c) { Some(symbol_of(c) as u8) } else { None::<u8> }),
{
    let b = c as u32;
    let mut j: usize = 0;
    while j < CHAR_MAPPING.len()
        invariant
            0 <= j <= 31,
            b == c as u32,
            forall|k: int| 0 <= k < j ==> CHAR_MAPPING@[k].1 as u32 != b,
        decreases 31 - j,
    {
        let entry = CHAR_MAPPING[j];
        proof {
            lemma_char_mapping(j as int);
        }
        if entry.1 as u32 == b {
            return Some(entry.0);
        }
        j += 1;
    }
    proof {
        assert forall|k: int| 1 <= k <= 31 implies symbol_byte(k) != b as int by {
            lemma_char_mapping(k - 1);
        }
    }
    None
}

} // verus!
