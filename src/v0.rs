use vstd::prelude::*;

use crate::name_encoding::{encode_char, in_alphabet, symbol_of};
use crate::utils::{metadata_mask, metadata_mask_spec, NAME_MAX, NAME_MIN};
use crate::Error;
use vstd::string::StringSliceAdditionalSpecFns;

verus! {

broadcast use vstd::string::group_string_axioms;

/// The bits that hold entropy: 0-59 and 64-70.
pub const RANDOM_BITS_MASK: u128 = 0x0000_0000_0000_007f_0fff_ffff_ffff_ffff;

/// A name of one to four characters, each of the alphabet.
pub open spec fn valid_name(s: Seq<char>) -> bool {
    &&& NAME_MIN <= s.len() <= NAME_MAX
    &&& forall|i: int| 0 <= i < s.len() ==> in_alphabet(#[trigger] s[i])
}

/// The symbol in slot `i` of the name field: 0 past the end of the name.
pub open spec fn name_slot(s: Seq<char>, i: int) -> int {
    if i < s.len() {
        symbol_of(s[i])
    } else {
        0
    }
}

/// The first `n` slots of the name field, read as base-32 digits, the first slot highest.
pub open spec fn name_prefix_code(s: Seq<char>, n: int) -> int
    decreases n,
{
    if n <= 0 {
        0
    } else {
        name_prefix_code(s, n - 1) * 32 + name_slot(s, n - 1)
    }
}

/// The 20-bit name code: four 5-bit symbols, the first character highest,
/// padded with symbol 0.
pub open spec fn name_field(s: Seq<char>) -> int {
    name_prefix_code(s, 4)
}

pub open spec fn id_name_mask_spec(s: Seq<char>) -> u128 {
    (name_field(s) as u128) << 108
}

pub open spec fn years_mask_spec(years_since_unix_epoch: u8) -> u128 {
    (years_since_unix_epoch as u128) << 100
}

/// Seconds bits 5-24 go to bits 80-99, seconds bits 0-4 to bits 71-75.
pub open spec fn year_seconds_mask_spec(seconds_since_year_start: u32) -> u128 {
    (((seconds_since_year_start as u128) >> 5) << 80) | (((seconds_since_year_start as u128)
        & 31) << 71)
}

pub open spec fn random_bits_mask_spec(random: u128) -> u128 {
    random & RANDOM_BITS_MASK
}

/// A variant-0 identifier: the OR of the five field masks.
pub open spec fn pack(
    name: Seq<char>,
    years_since_unix_epoch: u8,
    seconds_since_year_start: u32,
    random: u128,
) -> u128 {
    id_name_mask_spec(name) | years_mask_spec(years_since_unix_epoch) | year_seconds_mask_spec(
        seconds_since_year_start,
    ) | metadata_mask_spec(0) | random_bits_mask_spec(random)
}

/// Largest seconds count that the 25 bits of the seconds fields hold, plus one.
pub open spec fn seconds_limit() -> u32 {
    0x200_0000
}

proof fn lemma_name_prefix_bound(s: Seq<char>, n: int)
    requires
        0 <= n <= 4,
        forall|i: int| 0 <= i < s.len() ==> in_alphabet(#[trigger] s[i]),
    ensures
        0 <= name_prefix_code(s, n),
        n <= 0 ==> name_prefix_code(s, n) < 1,
        n == 1 ==> name_prefix_code(s, n) < 32,
        n == 2 ==> name_prefix_code(s, n) < 1024,
        n == 3 ==> name_prefix_code(s, n) < 32768,
        n == 4 ==> name_prefix_code(s, n) < 1048576,
    decreases n,
{
    if n > 0 {
        lemma_name_prefix_bound(s, n - 1);
    }
}

/// Bound on the name code of any name of alphabet characters.
pub proof fn lemma_name_field_bound(s: Seq<char>)
    requires
        forall|i: int| 0 <= i < s.len() ==> in_alphabet(#[trigger] s[i]),
    ensures
        0 <= name_field(s) < 0x10_0000,
{
    lemma_name_prefix_bound(s, 4);
}

/// The name code of `name`, placed at bits 108-127.
pub fn id_name_mask(name: &str) -> (r: u128)
    requires
        valid_name(name@),
    ensures
        r == id_name_mask_spec(name@),
{
    let mut mask: u128 = 0;
    let n = name.unicode_len();
    let mut i: usize = 0;
    while i < n
        invariant
            n == name@.len(),
            valid_name(name@),
            i <= n,
            mask == name_prefix_code(name@, i as int),
        decreases n - i,
    {
        proof {
            lemma_name_prefix_bound(name@, i as int);
        }
        let c = name.get_char(i);
        let encoded = encode_char(c).unwrap();
        mask = mask * 32 + encoded as u128;
        i += 1;
    }
    while i < NAME_MAX
        invariant
            n == name@.len(),
            valid_name(name@),
            n <= i <= NAME_MAX,
            mask == name_prefix_code(name@, i as int),
        decreases NAME_MAX - i,
    {
        proof {
            lemma_name_prefix_bound(name@, i as int);
        }
        mask = mask * 32;
        i += 1;
    }
    mask << 108
}

/// The year offset, placed at bits 100-107.
pub fn years_mask(years_since_unix_epoch: u8) -> (r: u128)
    ensures
        r == years_mask_spec(years_since_unix_epoch),
{
    let mut mask: u128 = 0;
    let years_since_unix_epoch = years_since_unix_epoch as u128;
    mask = mask | years_since_unix_epoch;
    assert(0u128 | years_since_unix_epoch == years_since_unix_epoch) by (bit_vector);
    mask = mask << 100;
    mask
}

/// The 25-bit seconds count, split over bits 80-99 and 71-75.
pub fn year_seconds_mask(seconds_since_year_start: u32) -> (r: u128)
    requires
        seconds_since_year_start < seconds_limit(),
    ensures
        r == year_seconds_mask_spec(seconds_since_year_start),
{
    let s = seconds_since_year_start as u128;
    let mut mask: u128 = 0;
    mask = mask | s >> 5;
    mask = mask << 9;
    mask = mask | s << 123 >> 123;
    mask = mask << 71;
    assert(((((0u128 | s >> 5) << 9) | s << 123 >> 123) << 71) == (((s >> 5) << 80) | ((s & 31)
        << 71))) by (bit_vector)
        requires
            s < 0x200_0000,
    ;
    mask
}

/// The entropy bits of `random`; every structural position cleared.
pub fn random_bits_mask(random: u128) -> (r: u128)
    ensures
        r == random_bits_mask_spec(random),
{
    random & RANDOM_BITS_MASK
}

/// Packs a name, a year offset, a seconds count and random bits into a variant-0 identifier.
pub fn make_from_parts(
    name: &str,
    years_since_unix_epoch: u8,
    seconds_since_year_start: u32,
    random: u128,
) -> (r: u128)
    requires
        valid_name(name@),
        seconds_since_year_start < seconds_limit(),
    ensures
        r == pack(name@, years_since_unix_epoch, seconds_since_year_start, random),
{
    let mut id: u128 = 0;
    let name_mask = id_name_mask(name);
    assert(0u128 | name_mask == name_mask) by (bit_vector);
    id = id | name_mask;
    id = id | years_mask(years_since_unix_epoch);
    id = id | year_seconds_mask(seconds_since_year_start);
    id = id | metadata_mask(0);
    id = id | random_bits_mask(random);
    id
}

/// Checks that `name` can name identifiers: one to four ASCII characters, each of the alphabet.
pub fn compile_name_valid_check(name: &str) -> (r: Result<(), Error>)
    ensures
        r is Ok <==> valid_name(name@),
        r is Err ==> r matches Err(Error::InvalidName),
{
    let len = name.len();
    if !(NAME_MIN <= len && len <= NAME_MAX) || !name.is_ascii() {
        proof {
            if valid_name(name@) {
                assert forall|k: int| 0 <= k < name@.len() implies '\0' <= #[trigger] name@[k]
                    <= '\u{7f}' by {
                    assert(in_alphabet(name@[k]));
                }
                assert(vstd::utf8::is_ascii_chars(name@));
                vstd::string::is_ascii_spec_bytes(name);
            }
        }
        return Err(Error::InvalidName);
    }
    let n = name.unicode_len();
    let mut i: usize = 0;
    while i < n
        invariant
            n == name@.len(),
            n == len,
            NAME_MIN <= len <= NAME_MAX,
            i <= n,
            forall|k: int| 0 <= k < i ==> in_alphabet(#[trigger] name@[k]),
        decreases n - i,
    {
        if encode_char(name.get_char(i)).is_none() {
            return Err(Error::InvalidName);
        }
        i += 1;
    }
    Ok(())
}

/// The payload of the text form, 102 bits: year offset and seconds bits 5-24,
/// then seconds bits 0-4 and entropy bits 64-70, then the variant selector and
/// entropy bits 0-59. The name and both markers are left out.
pub open spec fn stripped_id_info_spec(id: u128) -> u128 {
    (((id >> 80) & 0xfff_ffff) << 74) | (((id >> 64) & 0xfff) << 62) | (id
        & 0x3fff_ffff_ffff_ffff)
}

pub fn stripped_id_info(id: u128) -> (r: u128)
    ensures
        r == stripped_id_info_spec(id),
        r < 1u128 << 102,
{
    let mut stripped: u128 = 0;
    stripped = stripped | id << 20 >> 20 >> 80;
    stripped = stripped << 12;
    stripped = stripped | id << 52 >> 52 >> 64;
    stripped = stripped << 62;
    stripped = stripped | id << 66 >> 66;
    assert(((((0u128 | id << 20 >> 20 >> 80) << 12) | id << 52 >> 52 >> 64) << 62 | id << 66
        >> 66) == ((((id >> 80) & 0xfff_ffff) << 74) | (((id >> 64) & 0xfff) << 62) | (id
        & 0x3fff_ffff_ffff_ffff))) by (bit_vector);
    assert(((((id >> 80) & 0xfff_ffff) << 74) | (((id >> 64) & 0xfff) << 62) | (id
        & 0x3fff_ffff_ffff_ffff)) < 1u128 << 102) by (bit_vector);
    stripped
}


/// The name code at bits 108-127.
pub open spec fn name_code_of(id: u128) -> u128 {
    id >> 108
}

/// The year offset at bits 100-107.
pub open spec fn year_of(id: u128) -> u128 {
    (id >> 100) & 0xff
}

/// The seconds count, joined from bits 80-99 (high) and 71-75 (low).
pub open spec fn seconds_of(id: u128) -> u128 {
    (((id >> 80) & 0xf_ffff) << 5) | ((id >> 71) & 31)
}

/// The format marker at bits 76-79.
pub open spec fn format_marker_of(id: u128) -> u128 {
    (id >> 76) & 0xf
}

/// The variant marker at bit 63 and the reserved bit 62.
pub open spec fn variant_marker_of(id: u128) -> u128 {
    (id >> 62) & 3
}

/// The variant selector at bits 60-61.
pub open spec fn tni_variant_of(id: u128) -> u128 {
    (id >> 60) & 3
}

pub open spec fn entropy_of(id: u128) -> u128 {
    id & RANDOM_BITS_MASK
}

proof fn lemma_pack_unfold(name: Seq<char>, y: u8, s: u32, random: u128)
    requires
        valid_name(name),
    ensures
        pack(name, y, s, random) == ((name_field(name) as u128) << 108) | ((y as u128) << 100) | (
        (((s as u128) >> 5) << 80) | (((s as u128) & 31) << 71)) | 0x8000_8000_0000_0000_0000u128
            | (random & 0x7f_0fff_ffff_ffff_ffffu128),
        0 <= name_field(name) < 0x10_0000,
{
    lemma_name_field_bound(name);
    assert(0x8000_8000_0000_0000_0000u128 | (0u128 << 60) == 0x8000_8000_0000_0000_0000u128)
        by (bit_vector);
}

proof fn lemma_fields_bv(id: u128, n: u128, y: u128, s: u128, r: u128)
    by (bit_vector)
    requires
        n < 0x10_0000,
        y < 256,
        s < 0x200_0000,
        id == (n << 108) | (y << 100) | (((s >> 5) << 80) | ((s & 31) << 71))
            | 0x8000_8000_0000_0000_0000u128 | (r & 0x7f_0fff_ffff_ffff_ffffu128),
    ensures
        id >> 108 == n,
        (id >> 100) & 0xff == y,
        (((id >> 80) & 0xf_ffff) << 5) | ((id >> 71) & 31) == s,
        (id >> 76) & 0xf == 8,
        (id >> 62) & 3 == 2,
        (id >> 60) & 3 == 0,
        id & 0x7f_0fff_ffff_ffff_ffffu128 == r & 0x7f_0fff_ffff_ffff_ffffu128,
{
}

/// Every field of a packed identifier reads back as the value it was packed from,
/// and the structural fields hold their fixed values.
pub proof fn lemma_pack_round_trip(
    name: Seq<char>,
    years_since_unix_epoch: u8,
    seconds_since_year_start: u32,
    random: u128,
)
    requires
        valid_name(name),
        seconds_since_year_start < seconds_limit(),
    ensures
        ({
            let id = pack(name, years_since_unix_epoch, seconds_since_year_start, random);
            &&& name_code_of(id) == name_field(name)
            &&& year_of(id) == years_since_unix_epoch as u128
            &&& seconds_of(id) == seconds_since_year_start as u128
            &&& entropy_of(id) == random_bits_mask_spec(random)
            &&& format_marker_of(id) == 8
            &&& variant_marker_of(id) == 2
            &&& tni_variant_of(id) == 0
        }),
{
    lemma_pack_unfold(name, years_since_unix_epoch, seconds_since_year_start, random);
    let id = pack(name, years_since_unix_epoch, seconds_since_year_start, random);
    lemma_fields_bv(
        id,
        name_field(name) as u128,
        years_since_unix_epoch as u128,
        seconds_since_year_start as u128,
        random,
    );
}

proof fn lemma_high_bits_bv(id: u128, n: u128, y: u128, s: u128, r: u128)
    by (bit_vector)
    requires
        n < 0x10_0000,
        y < 256,
        s < 0x200_0000,
        id == (n << 108) | (y << 100) | (((s >> 5) << 80) | ((s & 31) << 71))
            | 0x8000_8000_0000_0000_0000u128 | (r & 0x7f_0fff_ffff_ffff_ffffu128),
    ensures
        id >> 71 == (n << 37) | (y << 29) | ((s >> 5) << 9) | 256 | (s & 31),
        (((id >> 80) & 0xfff_ffff) << 74 | ((id >> 64) & 0xfff) << 62 | (id
            & 0x3fff_ffff_ffff_ffff)) >> 62 == (y << 32) | ((s >> 5) << 12) | ((s & 31) << 7) | ((
        r >> 64) & 0x7f),
{
}

proof fn lemma_key_order_bv(n: u128, y1: u128, s1: u128, y2: u128, s2: u128)
    by (bit_vector)
    requires
        n < 0x10_0000,
        y1 < 256,
        y2 < 256,
        s1 < 0x200_0000,
        s2 < 0x200_0000,
        y1 < y2 || (y1 == y2 && s1 < s2),
    ensures
        (n << 37) | (y1 << 29) | ((s1 >> 5) << 9) | 256 | (s1 & 31) < (n << 37) | (y2 << 29) | ((
        s2 >> 5) << 9) | 256 | (s2 & 31),
{
}

proof fn lemma_payload_order_bv(y1: u128, s1: u128, e1: u128, y2: u128, s2: u128, e2: u128)
    by (bit_vector)
    requires
        y1 < 256,
        y2 < 256,
        s1 < 0x200_0000,
        s2 < 0x200_0000,
        e1 < 128,
        e2 < 128,
        y1 < y2 || (y1 == y2 && s1 < s2),
    ensures
        (y1 << 32) | ((s1 >> 5) << 12) | ((s1 & 31) << 7) | e1 < (y2 << 32) | ((s2 >> 5) << 12) | ((
        s2 & 31) << 7) | e2,
{
}

proof fn lemma_shifted_order_bv(a: u128, b: u128, k: u128)
    by (bit_vector)
    requires
        k < 128,
        a >> k < b >> k,
    ensures
        a < b,
{
}

/// Identifiers of one name are ordered by time: an earlier year, or the same year
/// and fewer seconds, gives a smaller identifier and a smaller text payload,
/// whatever the random bits.
pub proof fn lemma_pack_time_ordered(
    name: Seq<char>,
    years1: u8,
    seconds1: u32,
    random1: u128,
    years2: u8,
    seconds2: u32,
    random2: u128,
)
    requires
        valid_name(name),
        seconds1 < seconds_limit(),
        seconds2 < seconds_limit(),
        years1 < years2 || (years1 == years2 && seconds1 < seconds2),
    ensures
        pack(name, years1, seconds1, random1) < pack(name, years2, seconds2, random2),
        stripped_id_info_spec(pack(name, years1, seconds1, random1)) < stripped_id_info_spec(
            pack(name, years2, seconds2, random2),
        ),
{
    let id1 = pack(name, years1, seconds1, random1);
    let id2 = pack(name, years2, seconds2, random2);
    let n = name_field(name) as u128;
    lemma_pack_unfold(name, years1, seconds1, random1);
    lemma_pack_unfold(name, years2, seconds2, random2);
    lemma_high_bits_bv(id1, n, years1 as u128, seconds1 as u128, random1);
    lemma_high_bits_bv(id2, n, years2 as u128, seconds2 as u128, random2);
    lemma_key_order_bv(n, years1 as u128, seconds1 as u128, years2 as u128, seconds2 as u128);
    lemma_shifted_order_bv(id1, id2, 71);
    let e1 = (random1 >> 64) & 0x7f;
    let e2 = (random2 >> 64) & 0x7f;
    assert(e1 < 128 && e2 < 128) by (bit_vector)
        requires
            e1 == (random1 >> 64) & 0x7f,
            e2 == (random2 >> 64) & 0x7f,
    ;
    lemma_payload_order_bv(
        years1 as u128,
        seconds1 as u128,
        e1,
        years2 as u128,
        seconds2 as u128,
        e2,
    );
    lemma_shifted_order_bv(stripped_id_info_spec(id1), stripped_id_info_spec(id2), 62);
}

/// An identifier of variant 0 under `name`: the name code and the fixed
/// structural fields are in place.
pub open spec fn is_v0_id(id: u128, name: Seq<char>) -> bool {
    &&& name_code_of(id) == name_field(name)
    &&& format_marker_of(id) == 8
    &&& variant_marker_of(id) == 2
    &&& tni_variant_of(id) == 0
}

} // verus!
