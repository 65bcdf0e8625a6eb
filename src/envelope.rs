//! The native call envelope: a CBOR array holding one byte string.
use vstd::prelude::*;
use cbor_data::{CborBuilder, Encoder};
use crate::abi::copy_range;
use crate::hexcode::{hex_encode, hex_text, lemma_hex_text_skip};
use crate::words::{be8, lemma_be8_bytes};

verus! {

/// Failure to read an envelope.
#[derive(Clone, Copy, Debug, PartialEq, Eq, Structural)]
pub enum EnvelopeError {
    /// The bytes are not a CBOR array of exactly one byte string.
    EnvelopeFormatError,
}

/// The CBOR head of a byte string of `n` bytes, in its shortest form.
pub open spec fn bytes_head(n: u64) -> Seq<u8> {
    if n < 24 {
        seq![(0x40 + n) as u8]
    } else if n < 0x100 {
        seq![0x58u8, n as u8]
    } else if n < 0x1_0000 {
        seq![0x59u8, (n >> 8u64) as u8, n as u8]
    } else if n < 0x1_0000_0000 {
        seq![0x5au8, (n >> 24u64) as u8, (n >> 16u64) as u8, (n >> 8u64) as u8, n as u8]
    } else {
        seq![0x5bu8] + be8(n)
    }
}

/// The envelope of `b`: the head of a one-element array (0x81), then `b` as
/// a CBOR byte string.
pub open spec fn envelope_of(b: Seq<u8>) -> Seq<u8> {
    seq![0x81u8] + bytes_head(b.len() as u64) + b
}

/// The number of length bytes after a byte string's initial byte.
pub open spec fn extra_len(info: u8) -> int {
    if info < 24 {
        0
    } else if info == 24 {
        1
    } else if info == 25 {
        2
    } else if info == 26 {
        4
    } else {
        8
    }
}

/// The length written in a byte string's head that starts at `e[1]`.
pub open spec fn written_len(e: Seq<u8>, info: u8) -> u64 {
    if info < 24 {
        info as u64
    } else if info == 24 {
        e[2] as u64
    } else if info == 25 {
        ((e[2] as u64) << 8u64) | (e[3] as u64)
    } else if info == 26 {
        ((e[2] as u64) << 24u64) | ((e[3] as u64) << 16u64) | ((e[4] as u64) << 8u64) | (
        e[5] as u64)
    } else {
        ((e[2] as u64) << 56u64) | ((e[3] as u64) << 48u64) | ((e[4] as u64) << 40u64) | ((
        e[5] as u64) << 32u64) | ((e[6] as u64) << 24u64) | ((e[7] as u64) << 16u64) | ((
        e[8] as u64) << 8u64) | (e[9] as u64)
    }
}

/// The byte string inside an envelope, when `e` is a one-element CBOR array
/// holding exactly one definite-length byte string and nothing after it.
/// Indefinite-length forms (a `0x9f` array, a chunked `0x5f` byte string) are
/// refused: the native call path writes envelopes with definite lengths only,
/// as `wrap` does, so an indefinite form is not an envelope it produced.
pub open spec fn parse_envelope(e: Seq<u8>) -> Option<Seq<u8>> {
    if e.len() < 2 || e[0] != 0x81 || e[1] < 0x40 || e[1] > 0x5b {
        None
    } else {
        let info = (e[1] - 0x40) as u8;
        let start = 2 + extra_len(info);
        if e.len() < start {
            None
        } else if e.len() != start + written_len(e, info) {
            None
        } else {
            Some(e.subrange(start, e.len() as int))
        }
    }
}

/// Unwrapping a wrapped byte string gives it back, the empty one included.
pub proof fn lemma_envelope_round_trip(b: Seq<u8>)
    requires
        b.len() <= u64::MAX,
    ensures
        parse_envelope(envelope_of(b)) == Some(b),
{
    let n = b.len() as u64;
    let e = envelope_of(b);
    let h = bytes_head(n);
    assert(e[0] == 0x81);
    assert(forall|i: int| 0 <= i < h.len() ==> e[1 + i] == h[i]);
    if n < 24 {
    } else if n < 0x100 {
        assert((n as u8) as u64 == n) by (bit_vector)
            requires
                n < 0x100,
        ;
    } else if n < 0x1_0000 {
        assert(((((n >> 8u64) as u8) as u64) << 8u64) | ((n as u8) as u64) == n) by (bit_vector)
            requires
                n < 0x1_0000,
        ;
    } else if n < 0x1_0000_0000 {
        assert(((((n >> 24u64) as u8) as u64) << 24u64) | ((((n >> 16u64) as u8) as u64)
            << 16u64) | ((((n >> 8u64) as u8) as u64) << 8u64) | ((n as u8) as u64) == n)
            by (bit_vector)
            requires
                n < 0x1_0000_0000,
        ;
    } else {
        lemma_be8_bytes(n);
    }
    assert(e.subrange((1 + h.len()) as int, e.len() as int) =~= b);
}

/// Relies on cbor_data's `CborBuilder::encode_array` and `encode_bytes`: an
/// array of one item gets the definite head 0x81, and a byte string gets its
/// head in the shortest form, then its bytes.
#[verifier::external_body]
fn cbor_array_of_bytes(b: &Vec<u8>) -> (r: Vec<u8>)
    ensures
        r@ == envelope_of(b@),
{
    CborBuilder::default().encode_array(|builder| {
        builder.encode_bytes(b);
    }).into_vec()
}

/// The envelope that carries an ABI-encoded call to a native actor.
pub fn wrap(abi: &Vec<u8>) -> (r: Vec<u8>)
    ensures
        r@ == envelope_of(abi@),
{
    cbor_array_of_bytes(abi)
}

/// The byte string an envelope carries.
pub fn unwrap(e: &Vec<u8>) -> (r: Result<Vec<u8>, EnvelopeError>)
    ensures
        r is Ok <==> parse_envelope(e@) is Some,
        r is Ok ==> r->Ok_0@ == parse_envelope(e@)->0,
        r is Err ==> r->Err_0 == EnvelopeError::EnvelopeFormatError,
{
    let len = e.len();
    if len < 2 || e[0] != 0x81 || e[1] < 0x40 || e[1] > 0x5b {
        return Err(EnvelopeError::EnvelopeFormatError);
    }
    let info: u8 = e[1] - 0x40;
    let extra: usize = if info < 24 {
        0
    } else if info == 24 {
        1
    } else if info == 25 {
        2
    } else if info == 26 {
        4
    } else {
        8
    };
    let start = 2 + extra;
    if len < start {
        return Err(EnvelopeError::EnvelopeFormatError);
    }
    let n: u64 = if info < 24 {
        info as u64
    } else if info == 24 {
        e[2] as u64
    } else if info == 25 {
        ((e[2] as u64) << 8u64) | (e[3] as u64)
    } else if info == 26 {
        ((e[2] as u64) << 24u64) | ((e[3] as u64) << 16u64) | ((e[4] as u64) << 8u64) | (
        e[5] as u64)
    } else {
        ((e[2] as u64) << 56u64) | ((e[3] as u64) << 48u64) | ((e[4] as u64) << 40u64) | ((
        e[5] as u64) << 32u64) | ((e[6] as u64) << 24u64) | ((e[7] as u64) << 16u64) | ((
        e[8] as u64) << 8u64) | (e[9] as u64)
    };
    if (len - start) as u64 != n {
        return Err(EnvelopeError::EnvelopeFormatError);
    }
    Ok(copy_range(e, start, len - start))
}

/// The envelope of an ABI-encoded call as lowercase hexadecimal text, without
/// the array head's two digits: the byte string item alone.
pub fn cbor_encode(abi_encoded_call: Vec<u8>) -> (r: String)
    ensures
        r@ == hex_text(envelope_of(abi_encoded_call@)).subrange(
            2,
            hex_text(envelope_of(abi_encoded_call@)).len() as int,
        ),
{
    let env = wrap(&abi_encoded_call);
    let item = copy_range(&env, 1, env.len() - 1);
    proof {
        lemma_hex_text_skip(env@);
        assert(item@ =~= env@.skip(1));
    }
    hex_encode(item.as_slice())
}

} // verus!
