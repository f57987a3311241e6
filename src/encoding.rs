//! Base64 in the standard alphabet with padding, as RFC 4648 defines it.
//!
//! Encoding itself is done by the `base64` crate; this module states what its
//! output is, and proves that decoding that output gives the input back.
use base64::Engine;
use vstd::prelude::*;

verus! {

/// `=`, which fills the last group of four characters when the input's length
/// is not a multiple of three.
pub const PAD: u8 = 61;

/// The character (as an ASCII byte) that stands for the six-bit value `v`:
/// `A`-`Z`, then `a`-`z`, then `0`-`9`, then `+` and `/`.
pub open spec fn alphabet_byte(v: u8) -> u8 {
    if v < 26 {
        (65 + v) as u8
    } else if v < 52 {
        (71 + v) as u8
    } else if v < 62 {
        (v - 4) as u8
    } else if v == 62 {
        43
    } else {
        47
    }
}

/// The six-bit value of an alphabet character; the inverse of `alphabet_byte`.
pub open spec fn alphabet_value(c: u8) -> u32 {
    if 65 <= c && c <= 90 {
        (c - 65) as u32
    } else if 97 <= c && c <= 122 {
        (c - 71) as u32
    } else if 48 <= c && c <= 57 {
        (c + 4) as u32
    } else if c == 43 {
        62
    } else {
        63
    }
}

/// Whether `c` can appear in encoded output: an alphabet character or `=`.
pub open spec fn is_encoded_byte(c: u8) -> bool {
    (65 <= c && c <= 90) || (97 <= c && c <= 122) || (48 <= c && c <= 57) || c == 43 || c == 47
        || c == PAD
}

/// Three bytes as one 24-bit number, the first byte highest.
pub open spec fn group_bits(a: u8, b: u8, c: u8) -> u32 {
    ((a as u32) << 16u32) | ((b as u32) << 8u32) | (c as u32)
}

/// The six bits of `n` that start at bit `shift`.
pub open spec fn sextet(n: u32, shift: u32) -> u8 {
    ((n >> shift) & 63u32) as u8
}

/// The four characters that stand for the bytes `a`, `b`, `c`.
pub open spec fn encode_group(a: u8, b: u8, c: u8) -> Seq<u8> {
    let n = group_bits(a, b, c);
    seq![
        alphabet_byte(sextet(n, 18)),
        alphabet_byte(sextet(n, 12)),
        alphabet_byte(sextet(n, 6)),
        alphabet_byte(sextet(n, 0)),
    ]
}

/// Standard padded base64 of `b`: each three bytes give four characters; a last
/// group of one byte gives two characters and `==`, one of two bytes gives three
/// characters and `=`.
pub open spec fn base64_encode(b: Seq<u8>) -> Seq<u8>
    decreases b.len(),
{
    if b.len() == 0 {
        seq![]
    } else if b.len() == 1 {
        encode_group(b[0], 0, 0).take(2) + seq![PAD, PAD]
    } else if b.len() == 2 {
        encode_group(b[0], b[1], 0).take(3) + seq![PAD]
    } else {
        encode_group(b[0], b[1], b[2]) + base64_encode(b.skip(3))
    }
}

/// Four characters back to a 24-bit number.
pub open spec fn decode_bits(t: Seq<u8>) -> u32 {
    (alphabet_value(t[0]) << 18u32) | (alphabet_value(t[1]) << 12u32) | (alphabet_value(t[2])
        << 6u32) | alphabet_value(t[3])
}

/// Decoding of standard padded base64: four characters give three bytes, or
/// fewer where the group ends in padding, which ends the input.
pub open spec fn base64_decode(t: Seq<u8>) -> Seq<u8>
    decreases t.len(),
{
    if t.len() < 4 {
        seq![]
    } else {
        let n = decode_bits(t);
        let bytes = seq![((n >> 16u32) & 255u32) as u8, ((n >> 8u32) & 255u32) as u8, (n & 255u32) as u8];
        if t[2] == PAD {
            bytes.take(1)
        } else if t[3] == PAD {
            bytes.take(2)
        } else {
            bytes + base64_decode(t.skip(4))
        }
    }
}

proof fn lemma_alphabet(v: u8)
    requires
        v < 64,
    ensures
        alphabet_value(alphabet_byte(v)) == v as u32,
        alphabet_byte(v) != PAD,
        is_encoded_byte(alphabet_byte(v)),
{
}

proof fn lemma_sextet_small(n: u32, shift: u32)
    ensures
        (n >> shift) & 63u32 < 64,
{
    assert((n >> shift) & 63u32 < 64) by (bit_vector);
}

proof fn lemma_bits_round_trip(a: u32, b: u32, c: u32)
    requires
        a < 256,
        b < 256,
        c < 256,
    ensures
        ({
            let n = (a << 16u32) | (b << 8u32) | c;
            let m = (((n >> 18u32) & 63u32) << 18u32) | (((n >> 12u32) & 63u32) << 12u32) | (((n
                >> 6u32) & 63u32) << 6u32) | ((n >> 0u32) & 63u32);
            &&& (m >> 16u32) & 255u32 == a
            &&& (m >> 8u32) & 255u32 == b
            &&& m & 255u32 == c
        }),
{
    assert({
        let n = (a << 16u32) | (b << 8u32) | c;
        let m = (((n >> 18u32) & 63u32) << 18u32) | (((n >> 12u32) & 63u32) << 12u32) | (((n
            >> 6u32) & 63u32) << 6u32) | ((n >> 0u32) & 63u32);
        &&& (m >> 16u32) & 255u32 == a
        &&& (m >> 8u32) & 255u32 == b
        &&& m & 255u32 == c
    }) by (bit_vector)
        requires
            a < 256,
            b < 256,
            c < 256,
    ;
}

/// The bytes that a partial group carries survive whatever its padded
/// positions decode to.
proof fn lemma_bits_partial(a: u32, b: u32, c: u32, x: u32, y: u32)
    requires
        a < 256,
        b < 256,
        c < 256,
        x < 64,
        y < 64,
    ensures
        ({
            let n = (a << 16u32) | (b << 8u32) | c;
            let m1 = (((n >> 18u32) & 63u32) << 18u32) | (((n >> 12u32) & 63u32) << 12u32) | (x
                << 6u32) | y;
            let m2 = (((n >> 18u32) & 63u32) << 18u32) | (((n >> 12u32) & 63u32) << 12u32) | (((n
                >> 6u32) & 63u32) << 6u32) | y;
            &&& (m1 >> 16u32) & 255u32 == a
            &&& (m2 >> 16u32) & 255u32 == a
            &&& (m2 >> 8u32) & 255u32 == b
        }),
{
    assert({
        let n = (a << 16u32) | (b << 8u32) | c;
        let m1 = (((n >> 18u32) & 63u32) << 18u32) | (((n >> 12u32) & 63u32) << 12u32) | (x
            << 6u32) | y;
        let m2 = (((n >> 18u32) & 63u32) << 18u32) | (((n >> 12u32) & 63u32) << 12u32) | (((n
            >> 6u32) & 63u32) << 6u32) | y;
        &&& (m1 >> 16u32) & 255u32 == a
        &&& (m2 >> 16u32) & 255u32 == a
        &&& (m2 >> 8u32) & 255u32 == b
    }) by (bit_vector)
        requires
            a < 256,
            b < 256,
            c < 256,
            x < 64,
            y < 64,
    ;
}

/// The four characters of a group decode to the group's three bytes, and none
/// of them is padding.
proof fn lemma_group_round_trip(a: u8, b: u8, c: u8)
    ensures
        ({
            let g = encode_group(a, b, c);
            let n = decode_bits(g);
            &&& ((n >> 16u32) & 255u32) as u8 == a
            &&& ((n >> 8u32) & 255u32) as u8 == b
            &&& (n & 255u32) as u8 == c
            &&& forall|i: int| 0 <= i < 4 ==> g[i] != PAD && is_encoded_byte(#[trigger] g[i])
            &&& alphabet_value(g[0]) == (group_bits(a, b, c) >> 18u32) & 63u32
            &&& alphabet_value(g[1]) == (group_bits(a, b, c) >> 12u32) & 63u32
            &&& alphabet_value(g[2]) == (group_bits(a, b, c) >> 6u32) & 63u32
        }),
{
    let n = group_bits(a, b, c);
    lemma_sextet_small(n, 18);
    lemma_sextet_small(n, 12);
    lemma_sextet_small(n, 6);
    lemma_sextet_small(n, 0);
    lemma_alphabet(sextet(n, 18));
    lemma_alphabet(sextet(n, 12));
    lemma_alphabet(sextet(n, 6));
    lemma_alphabet(sextet(n, 0));
    lemma_bits_round_trip(a as u32, b as u32, c as u32);
}

/// Every byte of encoded output is an alphabet character or `=`.
pub proof fn lemma_encoded_bytes(b: Seq<u8>)
    ensures
        forall|i: int| 0 <= i < base64_encode(b).len() ==> is_encoded_byte(#[trigger] base64_encode(b)[i]),
    decreases b.len(),
{
    if b.len() == 0 {
    } else if b.len() == 1 {
        lemma_group_round_trip(b[0], 0, 0);
    } else if b.len() == 2 {
        lemma_group_round_trip(b[0], b[1], 0);
    } else {
        let g = encode_group(b[0], b[1], b[2]);
        let rest = base64_encode(b.skip(3));
        lemma_group_round_trip(b[0], b[1], b[2]);
        lemma_encoded_bytes(b.skip(3));
        assert forall|i: int| 0 <= i < base64_encode(b).len() implies is_encoded_byte(
            #[trigger] base64_encode(b)[i],
        ) by {
            if i >= 4 {
                assert(base64_encode(b)[i] == rest[i - 4]);
            }
        }
    }
}

/// Decoding the base64 of any bytes gives those bytes back.
pub proof fn lemma_base64_round_trip(b: Seq<u8>)
    ensures
        base64_decode(base64_encode(b)) == b,
    decreases b.len(),
{
    let t = base64_encode(b);
    if b.len() == 0 {
    } else if b.len() == 1 {
        let n = group_bits(b[0], 0, 0);
        lemma_group_round_trip(b[0], 0, 0);
        lemma_bits_partial(b[0] as u32, 0, 0, 63, 63);
        assert(t[0] == encode_group(b[0], 0, 0)[0]);
        assert(t[1] == encode_group(b[0], 0, 0)[1]);
        assert(t[2] == PAD);
        assert(alphabet_value(t[0]) == (n >> 18u32) & 63u32);
        assert(alphabet_value(t[1]) == (n >> 12u32) & 63u32);
        assert(base64_decode(t) =~= b);
    } else if b.len() == 2 {
        let n = group_bits(b[0], b[1], 0);
        lemma_group_round_trip(b[0], b[1], 0);
        lemma_bits_partial(b[0] as u32, b[1] as u32, 0, 63, 63);
        assert(t[2] != PAD);
        assert(t[3] == PAD);
        assert(alphabet_value(t[0]) == (n >> 18u32) & 63u32);
        assert(alphabet_value(t[1]) == (n >> 12u32) & 63u32);
        assert(alphabet_value(t[2]) == (n >> 6u32) & 63u32);
        assert(base64_decode(t) =~= b);
    } else {
        let g = encode_group(b[0], b[1], b[2]);
        lemma_group_round_trip(b[0], b[1], b[2]);
        lemma_base64_round_trip(b.skip(3));
        assert(t.skip(4) =~= base64_encode(b.skip(3)));
        assert(g[2] != PAD && g[3] != PAD);
        assert(decode_bits(t) == decode_bits(g));
        assert(base64_decode(t) =~= b);
    }
}

/// Relies on `base64::engine::general_purpose::STANDARD.encode`: standard
/// alphabet with `=` padding. The `String` it returns is ASCII, taken here as
/// its bytes.
#[verifier::external_body]
pub(crate) fn encode_standard(input: &[u8]) -> (r: Vec<u8>)
    ensures
        r@ == base64_encode(input@),
{
    base64::engine::general_purpose::STANDARD.encode(input).into_bytes()
}

} // verus!
