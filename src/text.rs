use vstd::prelude::*;

verus! {

broadcast use vstd::string::group_string_axioms;

/// The base58 text of a byte sequence, as `base58ck::encode` writes it.
pub uninterp spec fn base58_of(data: Seq<u8>) -> Seq<char>;

/// Relies on `base58ck::encode`: the plain base58 text of `data`, without a checksum.
/// Its result depends on the bytes alone.
#[verifier::external_body]
fn base58_encode(data: &[u8]) -> (r: String)
    ensures
        r@ == base58_of(data@),
{
    base58ck::encode(data)
}

/// Width of the padded payload in the text form.
pub const PAYLOAD_WIDTH: usize = 17;

/// Lower-case hexadecimal digit of `d`, for `d < 16`.
pub open spec fn hex_digit(d: int) -> char {
    seq!['0', '1', '2', '3', '4', '5', '6', '7', '8', '9', 'a', 'b', 'c', 'd', 'e', 'f'][d]
}

/// The five hexadecimal digits of a 20-bit value, most significant first.
pub open spec fn hex5(v: u128) -> Seq<char> {
    Seq::new(5, |i: int| hex_digit(((v >> ((16 - 4 * i) as u128)) & 15) as int))
}

/// Bytes 4 to 15 of the big-endian form of `x`: the low 96 bits, most significant first.
pub open spec fn low_be_bytes(x: u128) -> Seq<u8> {
    Seq::new(12, |k: int| (x >> ((88 - 8 * k) as u128)) as u8)
}

/// `s`, left-padded with the base58 zero digit `1` to the payload width.
pub open spec fn pad_payload(s: Seq<char>) -> Seq<char> {
    if s.len() >= PAYLOAD_WIDTH {
        s
    } else {
        Seq::new((PAYLOAD_WIDTH - s.len()) as nat, |i: int| '1') + s
    }
}

/// The text form: the name, a dot, then the padded payload.
pub open spec fn tni_text(name: Seq<char>, encoded: Seq<char>) -> Seq<char> {
    name + seq!['.'] + pad_payload(encoded)
}

/// The text form of the payload bytes `payload`, written after `name`.
pub open spec fn tni_text_of_payload(name: Seq<char>, payload: u128) -> Seq<char> {
    tni_text(name, base58_of(low_be_bytes(payload)))
}

/// Five lower-case hexadecimal digits of a 20-bit name code.
pub fn name_code_hex(code: u128) -> (r: String)
    requires
        code < 0x10_0000,
    ensures
        r@ == hex5(code),
{
    let digits = "0123456789abcdef";
    proof {
        reveal_strlit("0123456789abcdef");
    }
    let mut r = String::new();
    let mut i: usize = 0;
    while i < 5
        invariant
            i <= 5,
            digits@ == seq!['0', '1', '2', '3', '4', '5', '6', '7', '8', '9', 'a', 'b', 'c', 'd', 'e', 'f'],
            r@ == hex5(code).take(i as int),
        decreases 5 - i,
    {
        let shift = (16 - 4 * i) as u128;
        let d = ((code >> shift) & 15) as usize;
        assert(((code >> shift) & 15) < 16) by (bit_vector);
        let digit = digits.substring_char(d, d + 1);
        r.append(digit);
        assert(r@ =~= hex5(code).take(i + 1));
        i += 1;
    }
    assert(r@ =~= hex5(code));
    r
}

/// The low 96 bits of `x` as twelve big-endian bytes.
pub fn payload_bytes(x: u128) -> (r: Vec<u8>)
    ensures
        r@ == low_be_bytes(x),
{
    let mut r: Vec<u8> = Vec::new();
    let mut k: usize = 0;
    while k < 12
        invariant
            k <= 12,
            r@ == low_be_bytes(x).take(k as int),
        decreases 12 - k,
    {
        let shift = (88 - 8 * k) as u128;
        r.push((x >> shift) as u8);
        assert(r@ =~= low_be_bytes(x).take(k + 1));
        k += 1;
    }
    assert(r@ =~= low_be_bytes(x));
    r
}

/// Joins a name and the base58 text of a payload into the text form.
pub fn tni_string_from_encoded(name: &str, encoded: &str) -> (r: String)
    ensures
        r@ == tni_text(name@, encoded@),
{
    proof {
        reveal_strlit(".");
        reveal_strlit("1");
    }
    let mut r = String::from_str(name);
    r.append(".");
    let n = encoded.unicode_len();
    let mut k: usize = n;
    while k < PAYLOAD_WIDTH
        invariant
            n == encoded@.len(),
            n <= k,
            n < PAYLOAD_WIDTH ==> k <= PAYLOAD_WIDTH,
            n >= PAYLOAD_WIDTH ==> k == n,
            "1"@ == seq!['1'],
            r@ == name@ + seq!['.'] + Seq::new((k - n) as nat, |i: int| '1'),
        decreases PAYLOAD_WIDTH - k,
    {
        r.append("1");
        assert(r@ =~= name@ + seq!['.'] + Seq::new((k + 1 - n) as nat, |i: int| '1'));
        k += 1;
    }
    r.append(encoded);
    if n >= PAYLOAD_WIDTH {
        assert(k == n);
        assert(Seq::new((k - n) as nat, |i: int| '1') + encoded@ =~= pad_payload(encoded@));
    } else {
        assert(k == PAYLOAD_WIDTH);
        assert(Seq::new((k - n) as nat, |i: int| '1') + encoded@ =~= pad_payload(encoded@));
    }
    assert(r@ =~= tni_text(name@, encoded@));
    r
}

/// The text form of the payload `payload` after `name`: its twelve low bytes in
/// base58, padded with `1` to the payload width.
pub fn tni_string(name: &str, payload: u128) -> (r: String)
    ensures
        r@ == tni_text_of_payload(name@, payload),
{
    let bytes = payload_bytes(payload);
    let encoded = base58_encode(bytes.as_slice());
    tni_string_from_encoded(name, encoded.as_str())
}

} // verus!
