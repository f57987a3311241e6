//! The OSC 52 escape sequence, which asks a terminal to put text on its
//! clipboard: `ESC ] 5 2 ; c ;`, the text's UTF-8 bytes in base64, then `BEL`.
use crate::encoding::{base64_decode, base64_encode, encode_standard, is_encoded_byte, lemma_base64_round_trip, lemma_encoded_bytes};
use vstd::prelude::*;
use vstd::utf8::{decode_utf8, encode_utf8, encode_utf8_decode_utf8};

verus! {

/// The escape byte that opens the sequence.
pub const ESC: u8 = 27;

/// The bell byte that closes the sequence.
pub const BEL: u8 = 7;

/// `ESC ] 5 2 ; c ;`: an operating system command, number 52, for selection
/// `c`, the clipboard.
pub open spec fn osc52_prefix() -> Seq<u8> {
    seq![ESC, 93u8, 53u8, 50u8, 59u8, 99u8, 59u8]
}

/// A payload framed as a clipboard escape sequence.
pub open spec fn osc52_frame(payload: Seq<u8>) -> Seq<u8> {
    osc52_prefix() + payload + seq![BEL]
}

/// The sequence that sets the clipboard to `text`.
pub open spec fn osc52_of(text: Seq<char>) -> Seq<u8> {
    osc52_frame(base64_encode(encode_utf8(text)))
}

/// The bytes between the prefix and the closing `BEL` of a framed sequence.
pub open spec fn osc52_payload(q: Seq<u8>) -> Seq<u8> {
    q.subrange(7, q.len() - 1)
}

/// Builds the escape sequence that sets the terminal's clipboard to `text`.
pub fn osc52_sequence(text: &str) -> (r: Vec<u8>)
    ensures
        r@ == osc52_of(text@),
{
    let encoded = encode_standard(text.as_bytes());
    let mut out: Vec<u8> = Vec::new();
    out.push(ESC);
    out.push(93);
    out.push(53);
    out.push(50);
    out.push(59);
    out.push(99);
    out.push(59);
    let mut i: usize = 0;
    while i < encoded.len()
        invariant
            i <= encoded.len(),
            out@ == osc52_prefix() + encoded@.take(i as int),
        decreases encoded.len() - i,
    {
        out.push(encoded[i]);
        i = i + 1;
        assert(encoded@.take(i as int) =~= encoded@.take(i - 1) + seq![encoded@[i - 1]]);
    }
    out.push(BEL);
    assert(encoded@.take(i as int) =~= encoded@);
    assert(out@ =~= osc52_of(text@));
    out
}

/// For every text the sequence is the prefix, then base64 characters only
/// (never `ESC` nor `BEL`), then a single closing `BEL`; and decoding the
/// payload from base64 and then from UTF-8 gives the text back.
pub proof fn lemma_osc52_round_trip(text: Seq<char>)
    ensures
        ({
            let q = osc52_of(text);
            &&& q.len() >= 8
            &&& q.take(7) == osc52_prefix()
            &&& q.last() == BEL
            &&& forall|i: int|
                7 <= i < q.len() - 1 ==> {
                    &&& is_encoded_byte(#[trigger] q[i])
                    &&& q[i] != ESC
                    &&& q[i] != BEL
                }
            &&& decode_utf8(base64_decode(osc52_payload(q))) == text
        }),
{
    let bytes = encode_utf8(text);
    let p = base64_encode(bytes);
    let q = osc52_of(text);
    lemma_encoded_bytes(bytes);
    lemma_base64_round_trip(bytes);
    encode_utf8_decode_utf8(text);
    assert(q.take(7) =~= osc52_prefix());
    assert(osc52_payload(q) =~= p);
    assert forall|i: int| 7 <= i < q.len() - 1 implies {
        &&& is_encoded_byte(#[trigger] q[i])
        &&& q[i] != ESC
        &&& q[i] != BEL
    } by {
        assert(q[i] == p[i - 7]);
    }
}

} // verus!
