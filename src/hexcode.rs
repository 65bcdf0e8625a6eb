//! Hexadecimal text of byte strings.
use vstd::prelude::*;

verus! {

/// The lowercase hexadecimal digit of `d` (below 16).
pub open spec fn hex_digit(d: u8) -> char {
    seq!['0', '1', '2', '3', '4', '5', '6', '7', '8', '9', 'a', 'b', 'c', 'd', 'e', 'f'][d as int]
}

/// Two lowercase hexadecimal digits per byte, high digit first.
pub open spec fn hex_text(s: Seq<u8>) -> Seq<char>
    decreases s.len(),
{
    if s.len() == 0 {
        seq![]
    } else {
        seq![hex_digit(s[0] / 16), hex_digit(s[0] % 16)] + hex_text(s.skip(1))
    }
}

/// The value of one hexadecimal digit, in either case.
pub open spec fn hex_value(c: u8) -> Option<u8> {
    if 48 <= c <= 57 {
        Some((c - 48) as u8)
    } else if 97 <= c <= 102 {
        Some((c - 87) as u8)
    } else if 65 <= c <= 70 {
        Some((c - 55) as u8)
    } else {
        None
    }
}

/// The bytes that hexadecimal text spells: none when its length is odd or a
/// character is not a hexadecimal digit.
pub open spec fn hex_bytes(t: Seq<u8>) -> Option<Seq<u8>>
    decreases t.len(),
{
    if t.len() == 0 {
        Some(seq![])
    } else if t.len() == 1 {
        None
    } else {
        match (hex_value(t[0]), hex_value(t[1]), hex_bytes(t.skip(2))) {
            (Some(h), Some(l), Some(rest)) => Some(seq![(h * 16 + l) as u8] + rest),
            _ => None,
        }
    }
}

/// Dropping the first byte drops the first two digits.
pub proof fn lemma_hex_text_skip(s: Seq<u8>)
    requires
        s.len() > 0,
    ensures
        hex_text(s).subrange(2, hex_text(s).len() as int) == hex_text(s.skip(1)),
{
    let h = hex_text(s);
    assert(h.subrange(2, h.len() as int) =~= hex_text(s.skip(1)));
}

/// Relies on `hex::encode`: two lowercase digits per byte, in order.
#[verifier::external_body]
pub(crate) fn hex_encode(b: &[u8]) -> (r: String)
    ensures
        r@ == hex_text(b@),
{
    hex::encode(b)
}

/// Relies on `hex::decode`: digits of either case, in pairs; an odd length
/// or any other character is an error.
#[verifier::external_body]
fn hex_decode(t: &[u8]) -> (r: Option<Vec<u8>>)
    ensures
        r is Some <==> hex_bytes(t@) is Some,
        r is Some ==> r->0@ == hex_bytes(t@)->0,
{
    hex::decode(t).ok()
}

/// The bytes that hexadecimal text spells, such as compiled contract code
/// stored as text; `None` when the text is not hexadecimal.
pub fn decode_hex(text: &Vec<u8>) -> (r: Option<Vec<u8>>)
    ensures
        r is Some <==> hex_bytes(text@) is Some,
        r is Some ==> r->0@ == hex_bytes(text@)->0,
{
    hex_decode(text.as_slice())
}

} // verus!
