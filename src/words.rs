//! 32-byte ABI words holding scalar values.
use vstd::prelude::*;

verus! {

/// `n` copies of the byte `b`.
pub open spec fn fill(n: nat, b: u8) -> Seq<u8> {
    Seq::new(n, |_i: int| b)
}

/// The eight big-endian bytes of a 64-bit value.
pub open spec fn be8(x: u64) -> Seq<u8> {
    seq![
        (x >> 56u64) as u8,
        (x >> 48u64) as u8,
        (x >> 40u64) as u8,
        (x >> 32u64) as u8,
        (x >> 24u64) as u8,
        (x >> 16u64) as u8,
        (x >> 8u64) as u8,
        x as u8,
    ]
}

/// The ABI word of an unsigned value: left-padded with zero bytes.
pub open spec fn uint_word(x: u64) -> Seq<u8> {
    fill(24, 0) + be8(x)
}

/// The ABI word of a signed value: two's complement, sign-extended to 32 bytes.
pub open spec fn int_word(x: i64) -> Seq<u8> {
    fill(24, if x < 0 { 0xffu8 } else { 0u8 }) + be8(x as u64)
}

/// The ABI word of a boolean: the unsigned word of 0 or 1.
pub open spec fn bool_word(b: bool) -> Seq<u8> {
    uint_word(if b { 1u64 } else { 0u64 })
}

/// A short byte string (at most 32 bytes) right-aligned in a word.
pub open spec fn padded_word(w: Seq<u8>) -> Seq<u8> {
    fill((32 - w.len()) as nat, 0) + w
}

/// The value of the low eight bytes of a word, read big-endian.
pub open spec fn low_u64(w: Seq<u8>) -> u64 {
    ((w[24] as u64) << 56u64) | ((w[25] as u64) << 48u64) | ((w[26] as u64) << 40u64) | ((
    w[27] as u64) << 32u64) | ((w[28] as u64) << 24u64) | ((w[29] as u64) << 16u64) | ((
    w[30] as u64) << 8u64) | (w[31] as u64)
}

/// The first `n` bytes of `w` all equal `b`.
pub open spec fn starts_with_fill(w: Seq<u8>, n: int, b: u8) -> bool {
    forall|i: int| 0 <= i < n ==> #[trigger] w[i] == b
}

/// A word that holds an unsigned 64-bit value.
pub open spec fn is_u64_word(w: Seq<u8>) -> bool {
    w.len() == 32 && starts_with_fill(w, 24, 0)
}

/// A word that holds a sign-extended 64-bit value.
pub open spec fn is_i64_word(w: Seq<u8>) -> bool {
    w.len() == 32 && starts_with_fill(w, 24, if w[24] >= 128 { 0xffu8 } else { 0u8 })
}

pub proof fn lemma_be8_bytes(x: u64)
    ensures
        ((((x >> 56u64) as u8) as u64) << 56u64) | ((((x >> 48u64) as u8) as u64) << 48u64) | ((((
        x >> 40u64) as u8) as u64) << 40u64) | ((((x >> 32u64) as u8) as u64) << 32u64) | ((((x
            >> 24u64) as u8) as u64) << 24u64) | ((((x >> 16u64) as u8) as u64) << 16u64) | ((((x
            >> 8u64) as u8) as u64) << 8u64) | ((x as u8) as u64) == x,
{
    assert(((((x >> 56u64) as u8) as u64) << 56u64) | ((((x >> 48u64) as u8) as u64) << 48u64)
        | ((((x >> 40u64) as u8) as u64) << 40u64) | ((((x >> 32u64) as u8) as u64) << 32u64) | ((((
    x >> 24u64) as u8) as u64) << 24u64) | ((((x >> 16u64) as u8) as u64) << 16u64) | ((((x
        >> 8u64) as u8) as u64) << 8u64) | ((x as u8) as u64) == x) by (bit_vector);
}

/// Reading back an unsigned word gives the value it was made from.
pub proof fn lemma_uint_word(x: u64)
    ensures
        uint_word(x).len() == 32,
        is_u64_word(uint_word(x)),
        low_u64(uint_word(x)) == x,
{
    lemma_be8_bytes(x);
    let w = uint_word(x);
    assert(w[24] == (x >> 56u64) as u8);
    assert(w[31] == x as u8);
}

/// Reading back a signed word gives the value it was made from.
pub proof fn lemma_int_word(x: i64)
    ensures
        int_word(x).len() == 32,
        is_i64_word(int_word(x)),
        low_u64(int_word(x)) as i64 == x,
{
    let u = x as u64;
    lemma_be8_bytes(u);
    assert(((u >> 56u64) as u8 >= 128) == (x < 0)) by (bit_vector)
        requires
            u == x as u64,
    ;
    assert((u as i64) == x) by (bit_vector)
        requires
            u == x as u64,
    ;
    let w = int_word(x);
    assert(w[24] == (u >> 56u64) as u8);
}

/// Appends the unsigned word of `x`.
pub fn push_uint_word(out: &mut Vec<u8>, x: u64)
    ensures
        final(out)@ == old(out)@ + uint_word(x),
{
    let ghost start = out@;
    let mut i: usize = 0;
    while i < 24
        invariant
            0 <= i <= 24,
            out@ == start + fill(i as nat, 0),
        decreases 24 - i,
    {
        out.push(0u8);
        i = i + 1;
        assert(out@ =~= start + fill(i as nat, 0));
    }
    out.push((x >> 56u64) as u8);
    out.push((x >> 48u64) as u8);
    out.push((x >> 40u64) as u8);
    out.push((x >> 32u64) as u8);
    out.push((x >> 24u64) as u8);
    out.push((x >> 16u64) as u8);
    out.push((x >> 8u64) as u8);
    out.push(x as u8);
    assert(out@ =~= start + uint_word(x));
}

/// Appends the signed word of `x`.
pub fn push_int_word(out: &mut Vec<u8>, x: i64)
    ensures
        final(out)@ == old(out)@ + int_word(x),
{
    let ghost start = out@;
    let b: u8 = if x < 0 { 0xff } else { 0 };
    let u: u64 = x as u64;
    let mut i: usize = 0;
    while i < 24
        invariant
            0 <= i <= 24,
            out@ == start + fill(i as nat, b),
        decreases 24 - i,
    {
        out.push(b);
        i = i + 1;
        assert(out@ =~= start + fill(i as nat, b));
    }
    out.push((u >> 56u64) as u8);
    out.push((u >> 48u64) as u8);
    out.push((u >> 40u64) as u8);
    out.push((u >> 32u64) as u8);
    out.push((u >> 24u64) as u8);
    out.push((u >> 16u64) as u8);
    out.push((u >> 8u64) as u8);
    out.push(u as u8);
    assert(out@ =~= start + int_word(x));
}

/// Appends a byte string of at most 32 bytes, right-aligned in one word.
pub fn push_padded_word(out: &mut Vec<u8>, w: &Vec<u8>)
    requires
        w.len() <= 32,
    ensures
        final(out)@ == old(out)@ + padded_word(w@),
{
    let ghost start = out@;
    let pad: usize = 32 - w.len();
    let mut i: usize = 0;
    while i < pad
        invariant
            0 <= i <= pad,
            pad == 32 - w.len(),
            out@ == start + fill(i as nat, 0),
        decreases pad - i,
    {
        out.push(0u8);
        i = i + 1;
        assert(out@ =~= start + fill(i as nat, 0));
    }
    let mut j: usize = 0;
    while j < w.len()
        invariant
            0 <= j <= w.len(),
            pad == 32 - w.len(),
            out@ == start + fill(pad as nat, 0) + w@.subrange(0, j as int),
        decreases w.len() - j,
    {
        out.push(w[j]);
        j = j + 1;
        assert(out@ =~= start + fill(pad as nat, 0) + w@.subrange(0, j as int));
    }
    assert(w@.subrange(0, w.len() as int) =~= w@);
}

/// The low eight bytes of the word at `pos`, read big-endian.
pub fn read_low_u64(data: &Vec<u8>, pos: usize) -> (r: u64)
    requires
        pos + 32 <= data.len(),
    ensures
        r == low_u64(data@.subrange(pos as int, pos + 32)),
{
    let p = pos + 24;
    ((data[p] as u64) << 56u64) | ((data[p + 1] as u64) << 48u64) | ((data[p + 2] as u64)
        << 40u64) | ((data[p + 3] as u64) << 32u64) | ((data[p + 4] as u64) << 24u64) | ((data[p
        + 5] as u64) << 16u64) | ((data[p + 6] as u64) << 8u64) | (data[p + 7] as u64)
}

/// Whether the first `n` bytes of the word at `pos` all equal `b`.
pub fn check_fill(data: &Vec<u8>, pos: usize, n: usize, b: u8) -> (r: bool)
    requires
        n <= 32,
        pos + 32 <= data.len(),
    ensures
        r == starts_with_fill(data@.subrange(pos as int, pos + 32), n as int, b),
{
    let ghost w = data@.subrange(pos as int, pos + 32);
    let mut i: usize = 0;
    while i < n
        invariant
            i <= n <= 32,
            pos + 32 <= data.len(),
            w == data@.subrange(pos as int, pos + 32),
            starts_with_fill(w, i as int, b),
        decreases n - i,
    {
        if data[pos + i] != b {
            assert(w[i as int] != b);
            return false;
        }
        i = i + 1;
    }
    true
}

} // verus!
