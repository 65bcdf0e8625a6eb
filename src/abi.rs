//! ABI encoding and decoding of values against explicit type schemas.
//!
//! A composite value (tuple, fixed array, dynamic array) is laid out as a
//! region: the heads of its elements in order, then the payloads of its
//! dynamic elements. A dynamic element's head is the offset of its payload
//! from the start of the region that holds the head.
use vstd::prelude::*;
use crate::words::{
    bool_word, check_fill, fill, int_word, is_i64_word, is_u64_word, lemma_int_word,
    lemma_uint_word, low_u64, padded_word, push_int_word, push_padded_word, push_uint_word,
    read_low_u64, starts_with_fill, uint_word,
};

verus! {

/// Largest head size that a well-formed schema may have.
pub const MAX_HEAD: u64 = 0xffff_ffff;

/// An ABI type.
#[derive(Debug)]
pub enum AbiType {
    /// `uintN` for N in 8, 16, 32, 64.
    Uint(u16),
    /// `int64`.
    Int64,
    /// `bool`.
    Bool,
    /// A closed enumeration with the given number of variants, carried as `uint8`.
    Enum(u8),
    /// `address`: 20 bytes.
    Address,
    /// `uint256`, carried as its 32 big-endian bytes.
    Uint256,
    /// `bytes`.
    Bytes,
    /// `string`, carried as its bytes.
    Str,
    /// `T[]`.
    Array(Box<AbiType>),
    /// `T[n]`.
    FixedArray(Box<AbiType>, usize),
    /// `(T1,...,Tn)`: a struct or a tuple.
    Tuple(Vec<AbiType>),
}

/// The shape of an ABI type, with the elements of a tuple as a sequence.
pub enum Ty {
    Uint(u16),
    Int64,
    Bool,
    Enum(u8),
    Address,
    Uint256,
    Bytes,
    Str,
    Array(Box<Ty>),
    FixedArray(Box<Ty>, usize),
    Tuple(Seq<Ty>),
}

/// The mathematical value of an ABI value.
pub enum Val {
    Uint(u64),
    Int(i64),
    Bool(bool),
    Word(Seq<u8>),
    Bytes(Seq<u8>),
    List(Seq<Val>),
}

/// An ABI value.
#[derive(Debug)]
pub enum AbiValue {
    /// A value of `uintN` (N at most 64) or of an enumeration.
    Uint(u64),
    /// A value of `int64`.
    Int(i64),
    /// A value of `bool`.
    Bool(bool),
    /// An `address` (20 bytes) or a `uint256` (32 bytes).
    Word(Vec<u8>),
    /// The content of `bytes` or `string`.
    Bytes(Vec<u8>),
    /// The elements of a tuple or an array.
    List(Vec<AbiValue>),
}

/// Failures of decoding.
#[derive(Clone, Copy, Debug, PartialEq, Eq, Structural)]
pub enum AbiError {
    /// Fewer bytes than a field requires.
    TruncatedInput,
    /// A dynamic offset points past the end of the data.
    OffsetOutOfRange,
    /// A word does not hold a value of its declared type.
    InvalidWord,
    /// An encoding longer than 64-bit offsets can address.
    TooLarge,
    /// The bytes decode, but are not exactly the encoding of what they hold
    /// (trailing bytes, padding or offsets other than the canonical ones).
    SchemaMismatch,
}

impl AbiValue {
    pub open spec fn model(self) -> Val
        decreases self,
    {
        match self {
            AbiValue::Uint(x) => Val::Uint(x),
            AbiValue::Int(x) => Val::Int(x),
            AbiValue::Bool(b) => Val::Bool(b),
            AbiValue::Word(w) => Val::Word(w@),
            AbiValue::Bytes(b) => Val::Bytes(b@),
            AbiValue::List(vs) => Val::List(model_list(vs@)),
        }
    }
}

impl AbiType {
    pub open spec fn shape(self) -> Ty
        decreases self,
    {
        match self {
            AbiType::Uint(b) => Ty::Uint(b),
            AbiType::Int64 => Ty::Int64,
            AbiType::Bool => Ty::Bool,
            AbiType::Enum(n) => Ty::Enum(n),
            AbiType::Address => Ty::Address,
            AbiType::Uint256 => Ty::Uint256,
            AbiType::Bytes => Ty::Bytes,
            AbiType::Str => Ty::Str,
            AbiType::Array(e) => Ty::Array(Box::new((*e).shape())),
            AbiType::FixedArray(e, n) => Ty::FixedArray(Box::new((*e).shape()), n),
            AbiType::Tuple(ts) => Ty::Tuple(shape_list(ts@)),
        }
    }
}

/// The shapes of a sequence of ABI types.
pub open spec fn shape_list(ts: Seq<AbiType>) -> Seq<Ty>
    decreases ts,
{
    if ts.len() == 0 {
        seq![]
    } else {
        shape_list(ts.drop_last()).push(ts.last().shape())
    }
}

/// The shapes of a list of types, element by element.
pub proof fn lemma_shape_list(ts: Seq<AbiType>)
    ensures
        shape_list(ts).len() == ts.len(),
        forall|i: int| 0 <= i < ts.len() ==> #[trigger] shape_list(ts)[i] == ts[i].shape(),
    decreases ts.len(),
{
    if ts.len() > 0 {
        lemma_shape_list(ts.drop_last());
    }
}

/// The values of a sequence of ABI values.
pub open spec fn model_list(vs: Seq<AbiValue>) -> Seq<Val>
    decreases vs,
{
    if vs.len() == 0 {
        seq![]
    } else {
        model_list(vs.drop_last()).push(vs.last().model())
    }
}

/// The largest value of `uintN`, or of an enumeration's ordinal.
pub open spec fn uint_bound(t: AbiType) -> u64 {
    match t {
        AbiType::Uint(bits) => if bits == 8 {
            0xffu64
        } else if bits == 16 {
            0xffffu64
        } else if bits == 32 {
            0xffff_ffffu64
        } else {
            0xffff_ffff_ffff_ffffu64
        },
        AbiType::Enum(n) => if n == 0 {
            0
        } else {
            (n - 1) as u64
        },
        _ => 0,
    }
}

/// Bytes of zero padding after `n` bytes, up to the next word boundary.
pub open spec fn pad_len(n: nat) -> nat {
    if n % 32 == 0 {
        0
    } else {
        (32 - n % 32) as nat
    }
}

/// Whether values of `t` are encoded out of line, behind an offset.
pub open spec fn is_dynamic(t: AbiType) -> bool
    decreases t,
{
    match t {
        AbiType::Bytes | AbiType::Str | AbiType::Array(_) => true,
        AbiType::FixedArray(e, _) => is_dynamic(*e),
        AbiType::Tuple(ts) => exists|i: int| 0 <= i < ts@.len() && is_dynamic(#[trigger] ts@[i]),
        _ => false,
    }
}

/// The `i`th element type of a composite type.
pub open spec fn elem(t: AbiType, i: int) -> AbiType {
    match t {
        AbiType::Tuple(ts) => ts@[i],
        AbiType::Array(e) => *e,
        AbiType::FixedArray(e, _) => *e,
        _ => t,
    }
}

/// The size of a value's head: one word when dynamic, else its whole encoding.
pub open spec fn head_size(t: AbiType) -> nat
    decreases t, 1nat, 0nat,
{
    if is_dynamic(t) {
        32
    } else {
        match t {
            AbiType::FixedArray(_, n) => region_heads(t, n as nat),
            AbiType::Tuple(ts) => region_heads(t, ts@.len()),
            _ => 32,
        }
    }
}

/// The total size of the first `k` heads of a composite type's region.
pub open spec fn region_heads(t: AbiType, k: nat) -> nat
    decreases t, 0nat, k,
{
    if k == 0 {
        0
    } else {
        region_heads(t, (k - 1) as nat) + match t {
            AbiType::Tuple(ts) => if k - 1 < ts@.len() {
                head_size(ts@[k - 1])
            } else {
                0
            },
            AbiType::Array(e) => head_size(*e),
            AbiType::FixedArray(e, _) => head_size(*e),
            _ => 0,
        }
    }
}

/// Whether `t` is a schema the codec accepts.
pub open spec fn wf(t: AbiType) -> bool
    decreases t,
{
    head_size(t) <= MAX_HEAD && match t {
        AbiType::Uint(bits) => bits == 8 || bits == 16 || bits == 32 || bits == 64,
        AbiType::Enum(n) => n >= 1,
        AbiType::Array(e) => wf(*e),
        AbiType::FixedArray(e, n) => n >= 1 && wf(*e),
        AbiType::Tuple(ts) => ts@.len() >= 1 && forall|i: int|
            0 <= i < ts@.len() ==> wf(#[trigger] ts@[i]),
        _ => true,
    }
}

/// Whether `v` is a value of type `t`.
pub open spec fn has_type(v: Val, t: AbiType) -> bool
    decreases t,
{
    match t {
        AbiType::Uint(_) | AbiType::Enum(_) => v is Uint && v->Uint_0 <= uint_bound(t),
        AbiType::Int64 => v is Int,
        AbiType::Bool => v is Bool,
        AbiType::Address => v is Word && v->Word_0.len() == 20,
        AbiType::Uint256 => v is Word && v->Word_0.len() == 32,
        AbiType::Bytes | AbiType::Str => v is Bytes,
        AbiType::Array(e) => v is List && forall|i: int|
            0 <= i < v->List_0.len() ==> has_type(#[trigger] v->List_0[i], *e),
        AbiType::FixedArray(e, n) => v is List && v->List_0.len() == n && forall|i: int|
            0 <= i < v->List_0.len() ==> has_type(#[trigger] v->List_0[i], *e),
        AbiType::Tuple(ts) => v is List && v->List_0.len() == ts@.len() && forall|i: int|
            0 <= i < ts@.len() ==> has_type(v->List_0[i], #[trigger] ts@[i]),
    }
}

/// The encoding of the content of `bytes` or `string`: length word, content,
/// zero padding to a word boundary.
pub open spec fn enc_bytes(b: Seq<u8>) -> Seq<u8> {
    uint_word(b.len() as u64) + b + fill(pad_len(b.len()), 0)
}

/// Adds one element to a region under construction: heads, then payloads.
/// `total` is the size of all heads of the region.
pub open spec fn region_step(
    prev: (Seq<u8>, Seq<u8>),
    dynamic: bool,
    e: Seq<u8>,
    total: nat,
) -> (Seq<u8>, Seq<u8>) {
    if dynamic {
        (prev.0 + uint_word((total + prev.1.len()) as u64), prev.1 + e)
    } else {
        (prev.0 + e, prev.1)
    }
}

/// The encoding of `v` as a value of `t`.
pub open spec fn enc(t: AbiType, v: Val) -> Seq<u8>
    decreases t, 1nat, 0nat,
{
    match t {
        AbiType::Uint(_) | AbiType::Enum(_) => uint_word(v->Uint_0),
        AbiType::Int64 => int_word(v->Int_0),
        AbiType::Bool => bool_word(v->Bool_0),
        AbiType::Address | AbiType::Uint256 => padded_word(v->Word_0),
        AbiType::Bytes | AbiType::Str => enc_bytes(v->Bytes_0),
        AbiType::Array(_) => {
            let vs = v->List_0;
            let parts = region_parts(t, vs, vs.len(), region_heads(t, vs.len()));
            uint_word(vs.len() as u64) + parts.0 + parts.1
        },
        _ => {
            let vs = v->List_0;
            let parts = region_parts(t, vs, vs.len(), region_heads(t, vs.len()));
            parts.0 + parts.1
        },
    }
}

/// The heads and the payloads of the first `k` elements of a region.
pub open spec fn region_parts(t: AbiType, vs: Seq<Val>, k: nat, total: nat) -> (
    Seq<u8>,
    Seq<u8>,
)
    decreases t, 0nat, k,
{
    if k == 0 {
        (seq![], seq![])
    } else {
        let prev = region_parts(t, vs, (k - 1) as nat, total);
        let v = vs[k - 1];
        let e = match t {
            AbiType::Tuple(ts) => if k - 1 < ts@.len() {
                enc(ts@[k - 1], v)
            } else {
                seq![]
            },
            AbiType::Array(et) => enc(*et, v),
            AbiType::FixedArray(et, _) => enc(*et, v),
            _ => seq![],
        };
        region_step(prev, is_dynamic(elem(t, k - 1)), e, total)
    }
}

/// The word at `pos`.
pub open spec fn word_at(data: Seq<u8>, pos: int) -> Seq<u8> {
    data.subrange(pos, pos + 32)
}

/// The value of type `t` encoded at `pos`, within a region that starts at
/// `pos` when `t` is composite.
pub open spec fn dec(t: AbiType, data: Seq<u8>, pos: int) -> Result<Val, AbiError>
    decreases t, 1nat, 0nat,
{
    if pos < 0 || pos + 32 > data.len() {
        Err(AbiError::TruncatedInput)
    } else {
        let w = word_at(data, pos);
        match t {
            AbiType::Uint(_) | AbiType::Enum(_) => if is_u64_word(w) && low_u64(w) <= uint_bound(
                t,
            ) {
                Ok(Val::Uint(low_u64(w)))
            } else {
                Err(AbiError::InvalidWord)
            },
            AbiType::Int64 => if is_i64_word(w) {
                Ok(Val::Int(low_u64(w) as i64))
            } else {
                Err(AbiError::InvalidWord)
            },
            AbiType::Bool => if is_u64_word(w) && low_u64(w) <= 1 {
                Ok(Val::Bool(low_u64(w) == 1))
            } else {
                Err(AbiError::InvalidWord)
            },
            AbiType::Address => if starts_with_fill(w, 12, 0) {
                Ok(Val::Word(w.subrange(12, 32)))
            } else {
                Err(AbiError::InvalidWord)
            },
            AbiType::Uint256 => Ok(Val::Word(w)),
            AbiType::Bytes | AbiType::Str => if !is_u64_word(w) {
                Err(AbiError::InvalidWord)
            } else if pos + 32 + low_u64(w) > data.len() {
                Err(AbiError::TruncatedInput)
            } else {
                Ok(Val::Bytes(data.subrange(pos + 32, pos + 32 + low_u64(w))))
            },
            AbiType::Array(_) => if !is_u64_word(w) {
                Err(AbiError::InvalidWord)
            } else if pos + 32 + 32 * low_u64(w) > data.len() {
                Err(AbiError::TruncatedInput)
            } else {
                match dec_region(t, data, pos + 32, low_u64(w) as nat) {
                    Ok(vs) => Ok(Val::List(vs)),
                    Err(e) => Err(e),
                }
            },
            AbiType::FixedArray(_, n) => match dec_region(t, data, pos, n as nat) {
                Ok(vs) => Ok(Val::List(vs)),
                Err(e) => Err(e),
            },
            AbiType::Tuple(ts) => match dec_region(t, data, pos, ts@.len()) {
                Ok(vs) => Ok(Val::List(vs)),
                Err(e) => Err(e),
            },
        }
    }
}

/// Where the `i`th element of a region that starts at `base` is encoded.
pub open spec fn elem_pos(t: AbiType, data: Seq<u8>, base: int, i: nat) -> Result<int, AbiError> {
    let hp = base + region_heads(t, i);
    if !is_dynamic(elem(t, i as int)) {
        Ok(hp)
    } else if hp + 32 > data.len() {
        Err(AbiError::TruncatedInput)
    } else if !is_u64_word(word_at(data, hp)) || base + low_u64(word_at(data, hp)) > data.len() {
        Err(AbiError::OffsetOutOfRange)
    } else {
        Ok(base + low_u64(word_at(data, hp)))
    }
}

/// The first `k` elements of the region that starts at `base`.
pub open spec fn dec_region(t: AbiType, data: Seq<u8>, base: int, k: nat) -> Result<
    Seq<Val>,
    AbiError,
>
    decreases t, 0nat, k,
{
    if k == 0 {
        Ok(seq![])
    } else {
        match dec_region(t, data, base, (k - 1) as nat) {
            Err(e) => Err(e),
            Ok(prev) => match elem_pos(t, data, base, (k - 1) as nat) {
                Err(e) => Err(e),
                Ok(p) => {
                    let r = match t {
                        AbiType::Tuple(ts) => if k - 1 < ts@.len() {
                            dec(ts@[k - 1], data, p)
                        } else {
                            Err(AbiError::TruncatedInput)
                        },
                        AbiType::Array(et) => dec(*et, data, p),
                        AbiType::FixedArray(et, _) => dec(*et, data, p),
                        _ => Err(AbiError::TruncatedInput),
                    };
                    match r {
                        Err(e) => Err(e),
                        Ok(x) => Ok(prev.push(x)),
                    }
                },
            },
        }
    }
}

/// A type laid out as a region of elements.
pub open spec fn is_composite(t: AbiType) -> bool {
    t is Tuple || t is Array || t is FixedArray
}

/// Element types of a region that may hold `k` elements.
pub open spec fn region_fits(t: AbiType, k: nat) -> bool {
    is_composite(t) && (t is Tuple ==> k <= t->Tuple_0@.len())
}

/// `vs` are the elements of a value of the composite type `t`.
pub open spec fn region_typed(t: AbiType, vs: Seq<Val>) -> bool {
    match t {
        AbiType::Tuple(ts) => vs.len() == ts@.len() && forall|i: int|
            0 <= i < vs.len() ==> has_type(vs[i], #[trigger] ts@[i]),
        AbiType::Array(e) => forall|i: int| 0 <= i < vs.len() ==> has_type(#[trigger] vs[i], *e),
        AbiType::FixedArray(e, n) => vs.len() == n && forall|i: int|
            0 <= i < vs.len() ==> has_type(#[trigger] vs[i], *e),
        _ => false,
    }
}

/// The encoding of a region of elements `vs`.
pub open spec fn enc_region(t: AbiType, vs: Seq<Val>) -> Seq<u8> {
    let parts = region_parts(t, vs, vs.len(), region_heads(t, vs.len()));
    parts.0 + parts.1
}

proof fn lemma_region_unfold(t: AbiType, vs: Seq<Val>, k: nat, total: nat)
    requires
        k >= 1,
        region_fits(t, k),
    ensures
        region_heads(t, k) == region_heads(t, (k - 1) as nat) + head_size(elem(t, k - 1)),
        region_parts(t, vs, k, total) == region_step(
            region_parts(t, vs, (k - 1) as nat, total),
            is_dynamic(elem(t, k - 1)),
            enc(elem(t, k - 1), vs[k - 1]),
            total,
        ),
{
}

proof fn lemma_elem_wf(t: AbiType, i: int)
    requires
        wf(t),
        is_composite(t),
        0 <= i,
        t is Tuple ==> i < t->Tuple_0@.len(),
    ensures
        wf(elem(t, i)),
{
    match t {
        AbiType::Tuple(ts) => assert(wf(ts@[i])),
        _ => {},
    }
}

proof fn lemma_elem_typed(t: AbiType, vs: Seq<Val>, i: int)
    requires
        region_typed(t, vs),
        0 <= i < vs.len(),
    ensures
        has_type(vs[i], elem(t, i)),
{
    match t {
        AbiType::Tuple(ts) => assert(has_type(vs[i], ts@[i])),
        _ => assert(has_type(vs[i], elem(t, i))),
    }
}

/// Every head of a well-formed type takes at least one word.
pub proof fn lemma_head_min(t: AbiType)
    requires
        wf(t),
    ensures
        head_size(t) >= 32,
    decreases t, 1nat, 0nat,
{
    if !is_dynamic(t) {
        match t {
            AbiType::FixedArray(_, n) => lemma_region_heads_min(t, n as nat),
            AbiType::Tuple(ts) => lemma_region_heads_min(t, ts@.len()),
            _ => {},
        }
    }
}

/// The first `k` heads of a region take at least `k` words.
pub proof fn lemma_region_heads_min(t: AbiType, k: nat)
    requires
        wf(t),
        region_fits(t, k),
    ensures
        region_heads(t, k) >= 32 * k,
    decreases t, 0nat, k,
{
    if k > 0 {
        lemma_region_heads_min(t, (k - 1) as nat);
        lemma_elem_wf(t, k - 1);
        match t {
            AbiType::Tuple(ts) => lemma_head_min(ts@[k - 1]),
            AbiType::Array(e) => lemma_head_min(*e),
            AbiType::FixedArray(e, _) => lemma_head_min(*e),
            _ => {},
        }
    }
}

/// A static value's encoding is exactly its head.
pub proof fn lemma_static_len(t: AbiType, v: Val)
    requires
        wf(t),
        has_type(v, t),
        !is_dynamic(t),
    ensures
        enc(t, v).len() == head_size(t),
    decreases t, 1nat, 0nat,
{
    match t {
        AbiType::FixedArray(_, n) => {
            let vs = v->List_0;
            assert(region_typed(t, vs));
            lemma_region_lens(t, vs, vs.len(), region_heads(t, vs.len()));
        },
        AbiType::Tuple(ts) => {
            let vs = v->List_0;
            assert(region_typed(t, vs));
            assert forall|i: int| 0 <= i < ts@.len() implies !is_dynamic(#[trigger] elem(t, i)) by {
                assert(!is_dynamic(ts@[i]));
            }
            lemma_region_lens(t, vs, vs.len(), region_heads(t, vs.len()));
        },
        _ => {},
    }
}

/// The heads of the first `k` elements take `region_heads(t, k)` bytes; with
/// no dynamic element among them, there is no payload.
pub proof fn lemma_region_lens(t: AbiType, vs: Seq<Val>, k: nat, total: nat)
    requires
        wf(t),
        region_typed(t, vs),
        k <= vs.len(),
    ensures
        region_parts(t, vs, k, total).0.len() == region_heads(t, k),
        (forall|i: int| 0 <= i < k ==> !is_dynamic(#[trigger] elem(t, i))) ==> region_parts(
            t,
            vs,
            k,
            total,
        ).1.len() == 0,
    decreases t, 0nat, k,
{
    if k > 0 {
        lemma_region_lens(t, vs, (k - 1) as nat, total);
        lemma_region_unfold(t, vs, k, total);
        lemma_elem_wf(t, k - 1);
        lemma_elem_typed(t, vs, k - 1);
        if !is_dynamic(elem(t, k - 1)) {
            match t {
                AbiType::Tuple(ts) => lemma_static_len(ts@[k - 1], vs[k - 1]),
                AbiType::Array(e) => lemma_static_len(*e, vs[k - 1]),
                AbiType::FixedArray(e, _) => lemma_static_len(*e, vs[k - 1]),
                _ => {},
            }
        }
    }
}

/// The heads and payloads of `j` elements begin those of `k >= j` elements.
pub proof fn lemma_region_prefix(t: AbiType, vs: Seq<Val>, j: nat, k: nat, total: nat)
    requires
        j <= k,
        region_fits(t, k),
    ensures
        region_parts(t, vs, j, total).0.len() <= region_parts(t, vs, k, total).0.len(),
        region_parts(t, vs, j, total).1.len() <= region_parts(t, vs, k, total).1.len(),
        region_parts(t, vs, j, total).0 =~= region_parts(t, vs, k, total).0.subrange(
            0,
            region_parts(t, vs, j, total).0.len() as int,
        ),
        region_parts(t, vs, j, total).1 =~= region_parts(t, vs, k, total).1.subrange(
            0,
            region_parts(t, vs, j, total).1.len() as int,
        ),
    decreases k,
{
    if j < k {
        lemma_region_prefix(t, vs, j, (k - 1) as nat, total);
        lemma_region_unfold(t, vs, k, total);
        let a = region_parts(t, vs, j, total);
        let b = region_parts(t, vs, (k - 1) as nat, total);
        let c = region_parts(t, vs, k, total);
        assert(b.0 =~= c.0.subrange(0, b.0.len() as int));
        assert(b.1 =~= c.1.subrange(0, b.1.len() as int));
        assert(a.0.len() <= b.0.len());
        assert(a.1.len() <= b.1.len());
        assert(a.0 =~= c.0.subrange(0, a.0.len() as int));
        assert(a.1 =~= c.1.subrange(0, a.1.len() as int));
    }
}

proof fn lemma_window(data: Seq<u8>, base: int, r: Seq<u8>, a: int, x: Seq<u8>)
    requires
        0 <= base,
        base + r.len() <= data.len(),
        data.subrange(base, base + r.len()) == r,
        0 <= a,
        a + x.len() <= r.len(),
        r.subrange(a, a + x.len()) == x,
    ensures
        data.subrange(base + a, base + a + x.len()) == x,
{
    assert forall|i: int| 0 <= i < x.len() implies data.subrange(base + a, base + a + x.len())[i]
        == x[i] by {
        assert(r[a + i] == data.subrange(base, base + r.len())[a + i]);
        assert(x[i] == r.subrange(a, a + x.len())[i]);
    }
    assert(data.subrange(base + a, base + a + x.len()) =~= x);
}

/// Where the encoding of a region holds its `k`th element.
proof fn lemma_elem_located(t: AbiType, vs: Seq<Val>, data: Seq<u8>, base: int, k: nat) -> (p: int)
    requires
        wf(t),
        region_typed(t, vs),
        1 <= k <= vs.len(),
        enc_region(t, vs).len() <= 0xffff_ffff_ffff_ffffu64,
        0 <= base,
        base + enc_region(t, vs).len() <= data.len(),
        data.subrange(base, base + enc_region(t, vs).len()) == enc_region(t, vs),
    ensures
        elem_pos(t, data, base, (k - 1) as nat) == Ok::<int, AbiError>(p),
        0 <= p,
        p + enc(elem(t, k - 1), vs[k - 1]).len() <= data.len(),
        enc(elem(t, k - 1), vs[k - 1]).len() <= enc_region(t, vs).len(),
        data.subrange(p, p + enc(elem(t, k - 1), vs[k - 1]).len()) == enc(
            elem(t, k - 1),
            vs[k - 1],
        ),
{
    let n = vs.len();
    let total = region_heads(t, n);
    let all = region_parts(t, vs, n, total);
    let prev = region_parts(t, vs, (k - 1) as nat, total);
    let cur = region_parts(t, vs, k, total);
    let r = all.0 + all.1;
    lemma_region_unfold(t, vs, k, total);
    lemma_region_lens(t, vs, (k - 1) as nat, total);
    lemma_region_lens(t, vs, n, total);
    lemma_region_prefix(t, vs, k, n, total);
    let et = elem(t, k - 1);
    let ev = vs[k - 1];
    let e = enc(et, ev);
    let hp = base + region_heads(t, (k - 1) as nat);
    if is_dynamic(et) {
        let off = total + prev.1.len();
        let w = uint_word(off as u64);
        assert(cur.0 == prev.0 + w);
        assert(cur.1 == prev.1 + e);
        assert(r.subrange(prev.0.len() as int, (prev.0.len() + 32) as int) =~= w) by {
            assert forall|i: int| 0 <= i < 32 implies r[prev.0.len() + i] == w[i] by {
                assert(all.0.subrange(0, cur.0.len() as int)[prev.0.len() + i] == cur.0[prev.0.len() + i]);
            }
        }
        lemma_window(data, base, r, prev.0.len() as int, w);
        assert(r.subrange(off as int, (off + e.len()) as int) =~= e) by {
            assert forall|i: int| 0 <= i < e.len() implies r[off + i] == e[i] by {
                assert(all.1.subrange(0, cur.1.len() as int)[prev.1.len() + i] == cur.1[prev.1.len() + i]);
            }
        }
        lemma_window(data, base, r, off as int, e);
        lemma_uint_word(off as u64);
        assert(word_at(data, hp) == w);
        base + off
    } else {
        assert(cur.0 == prev.0 + e);
        assert(r.subrange(prev.0.len() as int, (prev.0.len() + e.len()) as int) =~= e) by {
            assert forall|i: int| 0 <= i < e.len() implies r[prev.0.len() + i] == e[i] by {
                assert(all.0.subrange(0, cur.0.len() as int)[prev.0.len() + i] == cur.0[prev.0.len() + i]);
            }
        }
        lemma_window(data, base, r, prev.0.len() as int, e);
        hp
    }
}

/// Decoding the encoding of a region gives back its first `k` elements.
pub proof fn lemma_dec_region(t: AbiType, vs: Seq<Val>, data: Seq<u8>, base: int, k: nat)
    requires
        wf(t),
        region_typed(t, vs),
        k <= vs.len(),
        enc_region(t, vs).len() <= 0xffff_ffff_ffff_ffffu64,
        0 <= base,
        base + enc_region(t, vs).len() <= data.len(),
        data.subrange(base, base + enc_region(t, vs).len()) == enc_region(t, vs),
    ensures
        dec_region(t, data, base, k) == Ok::<Seq<Val>, AbiError>(vs.take(k as int)),
    decreases t, 0nat, k,
{
    if k > 0 {
        lemma_dec_region(t, vs, data, base, (k - 1) as nat);
        lemma_elem_wf(t, k - 1);
        lemma_elem_typed(t, vs, k - 1);
        let p = lemma_elem_located(t, vs, data, base, k);
        let ev = vs[k - 1];
        match t {
            AbiType::Tuple(ts) => lemma_dec_enc(ts@[k - 1], ev, data, p),
            AbiType::Array(el) => lemma_dec_enc(*el, ev, data, p),
            AbiType::FixedArray(el, _) => lemma_dec_enc(*el, ev, data, p),
            _ => {},
        }
        assert(dec(elem(t, k - 1), data, p) == Ok::<Val, AbiError>(ev));
        assert(vs.take(k - 1).push(ev) =~= vs.take(k as int));
    } else {
        assert(vs.take(0) =~= seq![]);
    }
}

/// Decoding the encoding of a value, wherever it stands in a larger byte
/// string, gives back the value.
pub proof fn lemma_dec_enc(t: AbiType, v: Val, data: Seq<u8>, pos: int)
    requires
        wf(t),
        has_type(v, t),
        enc(t, v).len() <= 0xffff_ffff_ffff_ffffu64,
        0 <= pos,
        pos + enc(t, v).len() <= data.len(),
        data.subrange(pos, pos + enc(t, v).len()) == enc(t, v),
    ensures
        dec(t, data, pos) == Ok::<Val, AbiError>(v),
    decreases t, 1nat, 0nat,
{
    let e = enc(t, v);
    match t {
        AbiType::Uint(_) | AbiType::Enum(_) => {
            lemma_uint_word(v->Uint_0);
            assert(word_at(data, pos) =~= e);
        },
        AbiType::Int64 => {
            lemma_int_word(v->Int_0);
            assert(word_at(data, pos) =~= e);
        },
        AbiType::Bool => {
            lemma_uint_word(if v->Bool_0 { 1u64 } else { 0u64 });
            assert(word_at(data, pos) =~= e);
        },
        AbiType::Address => {
            assert(word_at(data, pos) =~= e);
            assert(e.subrange(12, 32) =~= v->Word_0);
        },
        AbiType::Uint256 => {
            assert(word_at(data, pos) =~= e);
            assert(e =~= v->Word_0);
        },
        AbiType::Bytes | AbiType::Str => {
            let b = v->Bytes_0;
            lemma_uint_word(b.len() as u64);
            assert(word_at(data, pos) =~= e.subrange(0, 32));
            assert(data.subrange(pos + 32, pos + 32 + b.len()) =~= b) by {
                assert forall|i: int| 0 <= i < b.len() implies data[pos + 32 + i] == b[i] by {
                    assert(data[pos + 32 + i] == data.subrange(pos, pos + e.len())[32 + i]);
                }
            }
        },
        AbiType::Array(_) => {
            let vs = v->List_0;
            let n = vs.len();
            assert(region_typed(t, vs));
            lemma_uint_word(n as u64);
            lemma_region_lens(t, vs, n, region_heads(t, n));
            lemma_region_heads_min(t, n);
            assert(e == uint_word(n as u64) + enc_region(t, vs));
            assert(word_at(data, pos) =~= e.subrange(0, 32));
            assert(e.subrange(32, (32 + enc_region(t, vs).len()) as int) =~= enc_region(t, vs));
            lemma_window(data, pos, e, 32, enc_region(t, vs));
            lemma_dec_region(t, vs, data, pos + 32, n);
            assert(vs.take(n as int) =~= vs);
        },
        AbiType::FixedArray(_, _) | AbiType::Tuple(_) => {
            let vs = v->List_0;
            let n = vs.len();
            assert(region_typed(t, vs));
            lemma_region_lens(t, vs, n, region_heads(t, n));
            lemma_region_heads_min(t, n);
            assert(e == enc_region(t, vs));
            lemma_dec_region(t, vs, data, pos, n);
            assert(vs.take(n as int) =~= vs);
        },
    }
}

/// The values of a list of ABI values, element by element.
pub proof fn lemma_model_list(vs: Seq<AbiValue>)
    ensures
        model_list(vs).len() == vs.len(),
        forall|i: int| 0 <= i < vs.len() ==> #[trigger] model_list(vs)[i] == vs[i].model(),
    decreases vs.len(),
{
    if vs.len() > 0 {
        lemma_model_list(vs.drop_last());
    }
}

proof fn lemma_model_list_push(vs: Seq<AbiValue>, v: AbiValue)
    ensures
        model_list(vs.push(v)) == model_list(vs).push(v.model()),
{
    assert(vs.push(v).drop_last() =~= vs);
}

proof fn lemma_region_heads_mono(t: AbiType, i: nat, k: nat)
    requires
        i <= k,
    ensures
        region_heads(t, i) <= region_heads(t, k),
    decreases k,
{
    if i < k {
        lemma_region_heads_mono(t, i, (k - 1) as nat);
    }
}

impl AbiType {
    /// Whether values of this type are encoded out of line, behind an offset.
    pub fn is_dynamic(&self) -> (r: bool)
        ensures
            r == is_dynamic(*self),
        decreases *self,
    {
        match self {
            AbiType::Bytes | AbiType::Str | AbiType::Array(_) => true,
            AbiType::FixedArray(e, _) => e.is_dynamic(),
            AbiType::Tuple(ts) => {
                let mut i: usize = 0;
                while i < ts.len()
                    invariant
                        *self == AbiType::Tuple(*ts),
                        i <= ts@.len(),
                        forall|j: int| 0 <= j < i ==> !is_dynamic(#[trigger] ts@[j]),
                    decreases ts@.len() - i,
                {
                    proof {
                        assert(decreases_to!(*self => self->Tuple_0));
                        assert(decreases_to!(self->Tuple_0 => self->Tuple_0@));
                        assert(decreases_to!(self->Tuple_0@ => self->Tuple_0@[i as int]));
                        assert(decreases_to!(*self => ts@[i as int]));
                    }
                    if ts[i].is_dynamic() {
                        assert(is_dynamic(ts@[i as int]));
                        return true;
                    }
                    i = i + 1;
                }
                false
            },
            _ => false,
        }
    }

    /// The size of this type's head in a region.
    pub fn head_size(&self) -> (r: u64)
        requires
            wf(*self),
        ensures
            r == head_size(*self),
        decreases *self, 1nat,
    {
        if self.is_dynamic() {
            32
        } else {
            match self {
                AbiType::FixedArray(_, n) => region_heads_exec(self, *n),
                AbiType::Tuple(ts) => region_heads_exec(self, ts.len()),
                _ => 32,
            }
        }
    }

    /// Whether this is a schema the codec accepts: known integer widths, no
    /// empty tuple or fixed array, every head at most `MAX_HEAD` bytes.
    pub fn is_well_formed(&self) -> (r: bool)
        ensures
            r == wf(*self),
        decreases *self,
    {
        let parts_ok = match self {
            AbiType::Uint(bits) => *bits == 8 || *bits == 16 || *bits == 32 || *bits == 64,
            AbiType::Enum(n) => *n >= 1,
            AbiType::Array(e) => e.is_well_formed(),
            AbiType::FixedArray(e, n) => *n >= 1 && e.is_well_formed(),
            AbiType::Tuple(ts) => {
                if ts.len() == 0 {
                    false
                } else {
                    let mut ok = true;
                    let mut i: usize = 0;
                    while i < ts.len()
                        invariant
                            *self == AbiType::Tuple(*ts),
                            i <= ts@.len(),
                            ok == forall|j: int| 0 <= j < i ==> wf(#[trigger] ts@[j]),
                        decreases ts@.len() - i,
                    {
                        proof {
                            assert(decreases_to!(*self => self->Tuple_0));
                            assert(decreases_to!(self->Tuple_0 => self->Tuple_0@));
                            assert(decreases_to!(self->Tuple_0@ => self->Tuple_0@[i as int]));
                            assert(decreases_to!(*self => ts@[i as int]));
                        }
                        if !ts[i].is_well_formed() {
                            ok = false;
                        }
                        i = i + 1;
                    }
                    ok
                }
            },
            _ => true,
        };
        if !parts_ok {
            return false;
        }
        if self.is_dynamic() {
            return true;
        }
        let n: usize = match self {
            AbiType::FixedArray(_, n) => *n,
            AbiType::Tuple(ts) => ts.len(),
            _ => {
                return true;
            },
        };
        let mut acc: u64 = 0;
        let mut i: usize = 0;
        while i < n
            invariant
                is_composite(*self),
                !is_dynamic(*self),
                region_fits(*self, n as nat),
                self is Tuple ==> n == self->Tuple_0@.len(),
                self is FixedArray ==> n == self->FixedArray_1,
                forall|j: int| 0 <= j < n ==> wf(#[trigger] elem(*self, j)),
                i <= n,
                acc == region_heads(*self, i as nat),
                acc <= MAX_HEAD,
            decreases n - i,
        {
            proof {
                lemma_region_unfold(*self, seq![], (i + 1) as nat, 0);
            }
            let h = elem_exec(self, i).head_size();
            if h > MAX_HEAD - acc {
                proof {
                    lemma_region_heads_mono(*self, (i + 1) as nat, n as nat);
                }
                return false;
            }
            acc = acc + h;
            i = i + 1;
        }
        true
    }
}

/// The `i`th element type of a composite type.
pub fn elem_exec(t: &AbiType, i: usize) -> (r: &AbiType)
    requires
        is_composite(*t),
        t is Tuple ==> i < t->Tuple_0@.len(),
    ensures
        *r == elem(*t, i as int),
{
    match t {
        AbiType::Tuple(ts) => &ts[i],
        AbiType::Array(e) => e,
        AbiType::FixedArray(e, _) => e,
        _ => t,
    }
}

/// The total size of all heads of a region of `k` elements, when it fits in
/// 64 bits.
fn region_heads_checked(t: &AbiType, k: usize) -> (r: Option<u64>)
    requires
        wf(*t),
        region_fits(*t, k as nat),
    ensures
        r is Some <==> region_heads(*t, k as nat) <= u64::MAX,
        r is Some ==> r->0 == region_heads(*t, k as nat),
{
    let mut acc: u64 = 0;
    let mut i: usize = 0;
    while i < k
        invariant
            wf(*t),
            region_fits(*t, k as nat),
            i <= k,
            acc == region_heads(*t, i as nat),
        decreases k - i,
    {
        proof {
            lemma_region_unfold(*t, seq![], (i + 1) as nat, 0);
            lemma_region_heads_mono(*t, (i + 1) as nat, k as nat);
            lemma_elem_wf(*t, i as int);
        }
        let h = elem_exec(t, i).head_size();
        if h > u64::MAX - acc {
            return None;
        }
        acc = acc + h;
        i = i + 1;
    }
    Some(acc)
}

/// The total size of the first `k` heads of a region.
fn region_heads_exec(t: &AbiType, k: usize) -> (r: u64)
    requires
        wf(*t),
        region_fits(*t, k as nat),
        region_heads(*t, k as nat) <= 0xffff_ffff_ffff_ffffu64,
    ensures
        r == region_heads(*t, k as nat),
    decreases *t, 0nat,
{
    let mut acc: u64 = 0;
    let mut i: usize = 0;
    while i < k
        invariant
            wf(*t),
            region_fits(*t, k as nat),
            region_heads(*t, k as nat) <= 0xffff_ffff_ffff_ffffu64,
            i <= k,
            acc == region_heads(*t, i as nat),
        decreases k - i,
    {
        proof {
            lemma_region_unfold(*t, seq![], (i + 1) as nat, 0);
            lemma_region_heads_mono(*t, (i + 1) as nat, k as nat);
            lemma_elem_wf(*t, i as int);
        }
        let h = match t {
            AbiType::Tuple(ts) => ts[i].head_size(),
            AbiType::Array(e) => e.head_size(),
            AbiType::FixedArray(e, _) => e.head_size(),
            _ => 0,
        };
        acc = acc + h;
        i = i + 1;
    }
    acc
}

/// Appends `b`, then zero bytes up to the next word boundary.
fn push_padded_bytes(out: &mut Vec<u8>, b: &Vec<u8>)
    ensures
        final(out)@ == old(out)@ + b@ + fill(pad_len(b.len() as nat), 0),
{
    let ghost start = out@;
    let mut j: usize = 0;
    while j < b.len()
        invariant
            j <= b.len(),
            out@ == start + b@.subrange(0, j as int),
        decreases b.len() - j,
    {
        out.push(b[j]);
        j = j + 1;
        assert(out@ =~= start + b@.subrange(0, j as int));
    }
    assert(b@.subrange(0, b.len() as int) =~= b@);
    let rem: usize = b.len() % 32;
    let pad: usize = if rem == 0 { 0 } else { 32 - rem };
    let mut k: usize = 0;
    while k < pad
        invariant
            k <= pad,
            pad == pad_len(b.len() as nat),
            out@ == start + b@ + fill(k as nat, 0),
        decreases pad - k,
    {
        out.push(0u8);
        k = k + 1;
        assert(out@ =~= start + b@ + fill(k as nat, 0));
    }
}

/// Appends the encoding of `v` as a value of `t`; false when an offset or a
/// length of the encoding would not fit in 64 bits.
pub fn encode_into(t: &AbiType, v: &AbiValue, out: &mut Vec<u8>) -> (ok: bool)
    requires
        wf(*t),
        has_type(v.model(), *t),
    ensures
        ok ==> final(out)@ == old(out)@ + enc(*t, v.model()),
        !ok ==> old(out)@.len() + enc(*t, v.model()).len() > u64::MAX,
    decreases *t, 1nat,
{
    let ghost start = out@;
    match t {
        AbiType::Uint(_) | AbiType::Enum(_) => {
            if let AbiValue::Uint(x) = v {
                push_uint_word(out, *x);
            }
            true
        },
        AbiType::Int64 => {
            if let AbiValue::Int(x) = v {
                push_int_word(out, *x);
            }
            true
        },
        AbiType::Bool => {
            if let AbiValue::Bool(b) = v {
                push_uint_word(out, if *b { 1u64 } else { 0u64 });
            }
            true
        },
        AbiType::Address | AbiType::Uint256 => {
            if let AbiValue::Word(w) = v {
                push_padded_word(out, w);
            }
            true
        },
        AbiType::Bytes | AbiType::Str => {
            if let AbiValue::Bytes(b) = v {
                push_uint_word(out, b.len() as u64);
                push_padded_bytes(out, b);
                assert(out@ =~= start + enc(*t, v.model()));
            }
            true
        },
        AbiType::Array(_) => {
            if let AbiValue::List(vs) = v {
                push_uint_word(out, vs.len() as u64);
                proof {
                    lemma_model_list(vs@);
                    let ml = model_list(vs@);
                    assert(v.model() == Val::List(ml));
                    assert forall|i: int| 0 <= i < ml.len() implies has_type(
                        #[trigger] ml[i],
                        *t->Array_0,
                    ) by {
                        assert(has_type(v.model()->List_0[i], *t->Array_0));
                    }
                    assert(region_typed(*t, ml));
                }
                let ok = encode_region(t, vs, out);
                assert(ok ==> out@ =~= start + enc(*t, v.model()));
                ok
            } else {
                true
            }
        },
        AbiType::FixedArray(_, _) | AbiType::Tuple(_) => {
            if let AbiValue::List(vs) = v {
                proof {
                    lemma_model_list(vs@);
                }
                encode_region(t, vs, out)
            } else {
                true
            }
        },
    }
}

/// Appends the encoding of the region of elements `vs`: their heads, then
/// the payloads of the dynamic ones.
fn encode_region(t: &AbiType, vs: &Vec<AbiValue>, out: &mut Vec<u8>) -> (ok: bool)
    requires
        wf(*t),
        region_typed(*t, model_list(vs@)),
    ensures
        ok ==> final(out)@ == old(out)@ + enc_region(*t, model_list(vs@)),
        !ok ==> enc_region(*t, model_list(vs@)).len() > u64::MAX,
    decreases *t, 0nat,
{
    let ghost mvs = model_list(vs@);
    proof {
        lemma_model_list(vs@);
    }
    let n = vs.len();
    let ghost all = region_parts(*t, mvs, n as nat, region_heads(*t, n as nat));
    proof {
        lemma_region_lens(*t, mvs, n as nat, region_heads(*t, n as nat));
    }
    let total = match region_heads_checked(t, n) {
        Some(h) => h,
        None => {
            return false;
        },
    };
    let mut heads: Vec<u8> = Vec::new();
    let mut tails: Vec<u8> = Vec::new();
    let mut i: usize = 0;
    assert(heads@ =~= region_parts(*t, mvs, 0, total as nat).0);
    assert(tails@ =~= region_parts(*t, mvs, 0, total as nat).1);
    while i < n
        invariant
            wf(*t),
            region_typed(*t, mvs),
            mvs == model_list(vs@),
            mvs.len() == n,
            n == vs.len(),
            forall|j: int| 0 <= j < vs.len() ==> #[trigger] mvs[j] == vs@[j].model(),
            total == region_heads(*t, n as nat),
            all == region_parts(*t, mvs, n as nat, total as nat),
            all.0.len() == total,
            i <= n,
            heads@ == region_parts(*t, mvs, i as nat, total as nat).0,
            tails@ == region_parts(*t, mvs, i as nat, total as nat).1,
        decreases n - i,
    {
        let ghost prev = region_parts(*t, mvs, i as nat, total as nat);
        proof {
            lemma_region_unfold(*t, mvs, (i + 1) as nat, total as nat);
            lemma_region_prefix(*t, mvs, (i + 1) as nat, n as nat, total as nat);
            lemma_region_prefix(*t, mvs, i as nat, n as nat, total as nat);
            lemma_elem_wf(*t, i as int);
            lemma_elem_typed(*t, mvs, i as int);
        }
        let dynamic = elem_exec(t, i).is_dynamic();
        let ok = if dynamic {
            if tails.len() as u64 > u64::MAX - total {
                return false;
            }
            push_uint_word(&mut heads, total + tails.len() as u64);
            match t {
                AbiType::Tuple(ts) => {
                    proof {
                        assert(decreases_to!(*t => t->Tuple_0));
                        assert(decreases_to!(t->Tuple_0 => t->Tuple_0@));
                        assert(decreases_to!(t->Tuple_0@ => t->Tuple_0@[i as int]));
                    }
                    encode_into(&ts[i], &vs[i], &mut tails)
                },
                AbiType::Array(e) => encode_into(e, &vs[i], &mut tails),
                AbiType::FixedArray(e, _) => encode_into(e, &vs[i], &mut tails),
                _ => true,
            }
        } else {
            match t {
                AbiType::Tuple(ts) => {
                    proof {
                        assert(decreases_to!(*t => t->Tuple_0));
                        assert(decreases_to!(t->Tuple_0 => t->Tuple_0@));
                        assert(decreases_to!(t->Tuple_0@ => t->Tuple_0@[i as int]));
                    }
                    encode_into(&ts[i], &vs[i], &mut heads)
                },
                AbiType::Array(e) => encode_into(e, &vs[i], &mut heads),
                AbiType::FixedArray(e, _) => encode_into(e, &vs[i], &mut heads),
                _ => true,
            }
        };
        if !ok {
            return false;
        }
        i = i + 1;
    }
    let ghost start = out@;
    out.append(&mut heads);
    out.append(&mut tails);
    assert(out@ =~= start + enc_region(*t, mvs));
    true
}

/// The ABI encoding of `v` as a value of `t`; `TooLarge` exactly when the
/// encoding is longer than 64-bit offsets can address.
pub fn encode(t: &AbiType, v: &AbiValue) -> (r: Result<Vec<u8>, AbiError>)
    requires
        wf(*t),
        has_type(v.model(), *t),
    ensures
        r is Ok <==> enc(*t, v.model()).len() <= u64::MAX,
        r is Ok ==> r->Ok_0@ == enc(*t, v.model()),
        r is Err ==> r->Err_0 == AbiError::TooLarge,
{
    let mut out: Vec<u8> = Vec::new();
    if encode_into(t, v, &mut out) {
        let len = out.len();
        assert(out@ =~= enc(*t, v.model()));
        Ok(out)
    } else {
        Err(AbiError::TooLarge)
    }
}

/// The value of a decoding result.
pub open spec fn result_model(r: Result<AbiValue, AbiError>) -> Result<Val, AbiError> {
    match r {
        Ok(v) => Ok(v.model()),
        Err(e) => Err(e),
    }
}

/// The values of a decoded list.
pub open spec fn list_result_model(r: Result<Vec<AbiValue>, AbiError>) -> Result<
    Seq<Val>,
    AbiError,
> {
    match r {
        Ok(vs) => Ok(model_list(vs@)),
        Err(e) => Err(e),
    }
}

proof fn lemma_dec_region_unfold(t: AbiType, data: Seq<u8>, base: int, k: nat)
    requires
        k >= 1,
        region_fits(t, k),
    ensures
        dec_region(t, data, base, k) == match dec_region(t, data, base, (k - 1) as nat) {
            Err(e) => Err(e),
            Ok(prev) => match elem_pos(t, data, base, (k - 1) as nat) {
                Err(e) => Err(e),
                Ok(p) => match dec(elem(t, k - 1), data, p) {
                    Err(e) => Err(e),
                    Ok(x) => Ok(prev.push(x)),
                },
            },
        },
{
}

/// Once decoding a region fails, decoding more of it fails the same way.
proof fn lemma_dec_region_err(t: AbiType, data: Seq<u8>, base: int, j: nat, k: nat)
    requires
        j <= k,
        dec_region(t, data, base, j) is Err,
    ensures
        dec_region(t, data, base, k) == dec_region(t, data, base, j),
    decreases k,
{
    if j < k {
        lemma_dec_region_err(t, data, base, j, (k - 1) as nat);
    }
}

/// The bytes `data[start..start + len]`.
pub(crate) fn copy_range(data: &Vec<u8>, start: usize, len: usize) -> (r: Vec<u8>)
    requires
        start + len <= data.len(),
    ensures
        r@ == data@.subrange(start as int, start + len),
{
    let mut r: Vec<u8> = Vec::new();
    let mut j: usize = 0;
    while j < len
        invariant
            start + len <= data.len(),
            j <= len,
            r@ == data@.subrange(start as int, start + j),
        decreases len - j,
    {
        r.push(data[start + j]);
        j = j + 1;
        assert(r@ =~= data@.subrange(start as int, start + j));
    }
    r
}

fn uint_bound_exec(t: &AbiType) -> (r: u64)
    ensures
        r == uint_bound(*t),
{
    match t {
        AbiType::Uint(bits) => if *bits == 8 {
            0xff
        } else if *bits == 16 {
            0xffff
        } else if *bits == 32 {
            0xffff_ffff
        } else {
            0xffff_ffff_ffff_ffff
        },
        AbiType::Enum(n) => if *n == 0 {
            0
        } else {
            (*n - 1) as u64
        },
        _ => 0,
    }
}

/// Decodes a value of type `t` encoded at `pos` of `data`.
pub fn decode_at(t: &AbiType, data: &Vec<u8>, pos: usize) -> (r: Result<AbiValue, AbiError>)
    requires
        wf(*t),
    ensures
        result_model(r) == dec(*t, data@, pos as int),
    decreases *t, 1nat,
{
    if pos > data.len() || data.len() - pos < 32 {
        return Err(AbiError::TruncatedInput);
    }
    match t {
        AbiType::Uint(_) | AbiType::Enum(_) => {
            if !check_fill(data, pos, 24, 0) {
                return Err(AbiError::InvalidWord);
            }
            let x = read_low_u64(data, pos);
            if x > uint_bound_exec(t) {
                Err(AbiError::InvalidWord)
            } else {
                Ok(AbiValue::Uint(x))
            }
        },
        AbiType::Int64 => {
            let fb: u8 = if data[pos + 24] >= 128 { 0xff } else { 0 };
            assert(data@[pos + 24] == word_at(data@, pos as int)[24]);
            if !check_fill(data, pos, 24, fb) {
                return Err(AbiError::InvalidWord);
            }
            let x = read_low_u64(data, pos);
            Ok(AbiValue::Int(x as i64))
        },
        AbiType::Bool => {
            if !check_fill(data, pos, 24, 0) {
                return Err(AbiError::InvalidWord);
            }
            let x = read_low_u64(data, pos);
            if x > 1 {
                Err(AbiError::InvalidWord)
            } else {
                Ok(AbiValue::Bool(x == 1))
            }
        },
        AbiType::Address => {
            if !check_fill(data, pos, 12, 0) {
                return Err(AbiError::InvalidWord);
            }
            let w = copy_range(data, pos + 12, 20);
            assert(w@ =~= word_at(data@, pos as int).subrange(12, 32));
            Ok(AbiValue::Word(w))
        },
        AbiType::Uint256 => Ok(AbiValue::Word(copy_range(data, pos, 32))),
        AbiType::Bytes | AbiType::Str => {
            if !check_fill(data, pos, 24, 0) {
                return Err(AbiError::InvalidWord);
            }
            let n = read_low_u64(data, pos);
            if n > (data.len() - pos - 32) as u64 {
                return Err(AbiError::TruncatedInput);
            }
            Ok(AbiValue::Bytes(copy_range(data, pos + 32, n as usize)))
        },
        AbiType::Array(_) => {
            if !check_fill(data, pos, 24, 0) {
                return Err(AbiError::InvalidWord);
            }
            let n = read_low_u64(data, pos);
            let room: usize = data.len() - pos - 32;
            assert((32 * (n as int) > room as int) == ((n as int) > (room as int) / 32))
                by (nonlinear_arith);
            if n > (room / 32) as u64 {
                return Err(AbiError::TruncatedInput);
            }
            match decode_region(t, data, pos + 32, n as usize) {
                Ok(vs) => Ok(AbiValue::List(vs)),
                Err(e) => Err(e),
            }
        },
        AbiType::FixedArray(_, n) => match decode_region(t, data, pos, *n) {
            Ok(vs) => Ok(AbiValue::List(vs)),
            Err(e) => Err(e),
        },
        AbiType::Tuple(ts) => match decode_region(t, data, pos, ts.len()) {
            Ok(vs) => Ok(AbiValue::List(vs)),
            Err(e) => Err(e),
        },
    }
}

/// Decodes the first `k` elements of the region of type `t` at `base`.
fn decode_region(t: &AbiType, data: &Vec<u8>, base: usize, k: usize) -> (r: Result<
    Vec<AbiValue>,
    AbiError,
>)
    requires
        wf(*t),
        region_fits(*t, k as nat),
        base <= data.len(),
    ensures
        list_result_model(r) == dec_region(*t, data@, base as int, k as nat),
    decreases *t, 0nat,
{
    let mut out: Vec<AbiValue> = Vec::new();
    let mut hp: usize = base;
    let mut over = false;
    let mut i: usize = 0;
    assert(model_list(out@) =~= seq![]);
    while i < k
        invariant
            wf(*t),
            region_fits(*t, k as nat),
            base <= data.len(),
            i <= k,
            dec_region(*t, data@, base as int, i as nat) == Ok::<Seq<Val>, AbiError>(
                model_list(out@),
            ),
            !over ==> hp == base + region_heads(*t, i as nat),
            over ==> base + region_heads(*t, i as nat) > data.len(),
        decreases k - i,
    {
        proof {
            lemma_region_unfold(*t, seq![], (i + 1) as nat, 0);
            lemma_elem_wf(*t, i as int);
        }
        if over || hp > data.len() || data.len() - hp < 32 {
            proof {
                lemma_dec_region_unfold(*t, data@, base as int, (i + 1) as nat);
                let hps = base + region_heads(*t, i as nat);
                assert(hps + 32 > data.len());
                if !is_dynamic(elem(*t, i as int)) {
                    assert(dec(elem(*t, i as int), data@, hps) is Err);
                }
                lemma_dec_region_err(*t, data@, base as int, (i + 1) as nat, k as nat);
            }
            return Err(AbiError::TruncatedInput);
        }
        let et = elem_exec(t, i);
        let p: usize = if et.is_dynamic() {
            if !check_fill(data, hp, 24, 0) {
                proof {
                    lemma_dec_region_unfold(*t, data@, base as int, (i + 1) as nat);
                    lemma_dec_region_err(*t, data@, base as int, (i + 1) as nat, k as nat);
                }
                return Err(AbiError::OffsetOutOfRange);
            }
            let off = read_low_u64(data, hp);
            if off > (data.len() - base) as u64 {
                proof {
                    lemma_dec_region_unfold(*t, data@, base as int, (i + 1) as nat);
                    lemma_dec_region_err(*t, data@, base as int, (i + 1) as nat, k as nat);
                }
                return Err(AbiError::OffsetOutOfRange);
            }
            base + off as usize
        } else {
            hp
        };
        assert(elem_pos(*t, data@, base as int, i as nat) == Ok::<int, AbiError>(p as int));
        let x = match t {
            AbiType::Tuple(ts) => {
                proof {
                    assert(decreases_to!(*t => t->Tuple_0));
                    assert(decreases_to!(t->Tuple_0 => t->Tuple_0@));
                    assert(decreases_to!(t->Tuple_0@ => t->Tuple_0@[i as int]));
                }
                decode_at(&ts[i], data, p)
            },
            AbiType::Array(e) => decode_at(e, data, p),
            AbiType::FixedArray(e, _) => decode_at(e, data, p),
            _ => Err(AbiError::TruncatedInput),
        };
        match x {
            Err(e) => {
                proof {
                    lemma_dec_region_unfold(*t, data@, base as int, (i + 1) as nat);
                    lemma_dec_region_err(*t, data@, base as int, (i + 1) as nat, k as nat);
                }
                return Err(e);
            },
            Ok(x) => {
                proof {
                    lemma_dec_region_unfold(*t, data@, base as int, (i + 1) as nat);
                    lemma_model_list_push(out@, x);
                }
                out.push(x);
            },
        }
        let hs = et.head_size();
        if hs as usize > data.len() - hp {
            over = true;
        } else {
            hp = hp + hs as usize;
        }
        i = i + 1;
    }
    Ok(out)
}

/// Decodes a value of type `t` from the start of `data`.
pub fn decode(t: &AbiType, data: &Vec<u8>) -> (r: Result<AbiValue, AbiError>)
    requires
        wf(*t),
    ensures
        result_model(r) == dec(*t, data@, 0),
{
    decode_at(t, data, 0)
}

proof fn lemma_model_variant(v: AbiValue)
    ensures
        (v.model() is Uint) == (v is Uint),
        (v.model() is Int) == (v is Int),
        (v.model() is Bool) == (v is Bool),
        (v.model() is Word) == (v is Word),
        (v.model() is Bytes) == (v is Bytes),
        (v.model() is List) == (v is List),
{
}

impl AbiValue {
    /// Whether this is a value of type `t`.
    pub fn conforms_to(&self, t: &AbiType) -> (r: bool)
        ensures
            r == has_type(self.model(), *t),
        decreases *t, 1nat,
    {
        proof {
            lemma_model_variant(*self);
        }
        let r = match t {
            AbiType::Uint(_) => {
                let q = match self {
                    AbiValue::Uint(x) => *x <= uint_bound_exec(t),
                    _ => false,
                };
                assert(q == has_type(self.model(), *t));
                q
            },
            AbiType::Enum(_) => {
                let q = match self {
                    AbiValue::Uint(x) => *x <= uint_bound_exec(t),
                    _ => false,
                };
                assert(q == has_type(self.model(), *t));
                q
            },
            AbiType::Int64 => {
                let q = match self {
                    AbiValue::Int(_) => true,
                    _ => false,
                };
                assert(q == has_type(self.model(), *t));
                q
            },
            AbiType::Bool => {
                let q = match self {
                    AbiValue::Bool(_) => true,
                    _ => false,
                };
                assert(q == has_type(self.model(), *t));
                q
            },
            AbiType::Address => {
                let q = match self {
                    AbiValue::Word(w) => w.len() == 20,
                    _ => false,
                };
                assert(q == has_type(self.model(), *t));
                q
            },
            AbiType::Uint256 => {
                let q = match self {
                    AbiValue::Word(w) => w.len() == 32,
                    _ => false,
                };
                assert(q == has_type(self.model(), *t));
                q
            },
            AbiType::Bytes | AbiType::Str => {
                let q = match self {
                    AbiValue::Bytes(_) => true,
                    _ => false,
                };
                assert(q == has_type(self.model(), *t));
                q
            },
            AbiType::Array(e) => {
                let q = match self {
                    AbiValue::List(vs) => {
                        proof {
                            lemma_model_list(vs@);
                            assert(self.model() == Val::List(model_list(vs@)));
                        }
                        let all = all_conform(vs, e);
                        assert(all == has_type(self.model(), *t)) by {
                            let ml = model_list(vs@);
                            if all {
                                assert forall|i: int| 0 <= i < ml.len() implies has_type(
                                    #[trigger] self.model()->List_0[i],
                                    **e,
                                ) by {
                                    assert(has_type(ml[i], **e));
                                }
                            } else {
                                let i = choose|i: int| 0 <= i < vs@.len() && !has_type(ml[i], **e);
                                assert(!has_type(self.model()->List_0[i], **e));
                            }
                        }
                        all
                    },
                    _ => false,
                };
                assert(q == has_type(self.model(), *t));
                q
            },
            AbiType::FixedArray(e, n) => {
                let q = match self {
                    AbiValue::List(vs) => {
                        proof {
                            lemma_model_list(vs@);
                        }
                        vs.len() == *n && all_conform(vs, e)
                    },
                    _ => false,
                };
                assert(q == has_type(self.model(), *t));
                q
            },
            AbiType::Tuple(ts) => match self {
                AbiValue::List(vs) => {
                    proof {
                        lemma_model_list(vs@);
                    }
                    if vs.len() != ts.len() {
                        return false;
                    }
                    let mut i: usize = 0;
                    while i < vs.len()
                        invariant
                            *t == AbiType::Tuple(*ts),
                            *self == AbiValue::List(*vs),
                            vs@.len() == ts@.len(),
                            i <= vs@.len(),
                            model_list(vs@).len() == vs@.len(),
                            forall|j: int| 0 <= j < vs@.len() ==> #[trigger] model_list(vs@)[j] == vs@[j].model(),
                            forall|j: int| 0 <= j < i ==> has_type(model_list(vs@)[j], #[trigger] ts@[j]),
                        decreases vs@.len() - i,
                    {
                        proof {
                            assert(decreases_to!(*t => t->Tuple_0));
                            assert(decreases_to!(t->Tuple_0 => t->Tuple_0@));
                            assert(decreases_to!(t->Tuple_0@ => t->Tuple_0@[i as int]));
                        }
                        if !vs[i].conforms_to(&ts[i]) {
                            assert(!has_type(model_list(vs@)[i as int], ts@[i as int]));
                            assert(self.model()->List_0 == model_list(vs@));
                            return false;
                        }
                        i = i + 1;
                    }
                    assert(self.model() == Val::List(model_list(vs@)));
                    assert(has_type(self.model(), *t));
                    true
                },
                _ => false,
            },
        };
        assert(r == has_type(self.model(), *t));
        r
    }
}

/// Whether every element of `vs` is a value of `e`.
fn all_conform(vs: &Vec<AbiValue>, e: &AbiType) -> (r: bool)
    ensures
        r == forall|j: int| 0 <= j < vs@.len() ==> has_type(#[trigger] model_list(vs@)[j], *e),
    decreases *e, 2nat,
{
    proof {
        lemma_model_list(vs@);
    }
    let mut i: usize = 0;
    while i < vs.len()
        invariant
            i <= vs@.len(),
            model_list(vs@).len() == vs@.len(),
            forall|j: int| 0 <= j < vs@.len() ==> #[trigger] model_list(vs@)[j] == vs@[j].model(),
            forall|j: int| 0 <= j < i ==> has_type(#[trigger] model_list(vs@)[j], *e),
        decreases vs@.len() - i,
    {
        if !vs[i].conforms_to(e) {
            assert(!has_type(model_list(vs@)[i as int], *e));
            return false;
        }
        i = i + 1;
    }
    true
}

/// Round trip: decoding the encoding of a value of a well-formed schema gives
/// back the value.
pub proof fn lemma_round_trip(t: AbiType, v: Val)
    requires
        wf(t),
        has_type(v, t),
        enc(t, v).len() <= u64::MAX,
    ensures
        dec(t, enc(t, v), 0) == Ok::<Val, AbiError>(v),
{
    assert(enc(t, v).subrange(0, enc(t, v).len() as int) =~= enc(t, v));
    lemma_dec_enc(t, v, enc(t, v), 0);
}

/// Whether two byte strings are equal.
pub(crate) fn bytes_eq(a: &[u8], b: &[u8]) -> (r: bool)
    ensures
        r == (a@ == b@),
{
    if a.len() != b.len() {
        return false;
    }
    let mut i: usize = 0;
    while i < a.len()
        invariant
            a@.len() == b@.len(),
            i <= a@.len(),
            forall|j: int| 0 <= j < i ==> a@[j] == b@[j],
        decreases a@.len() - i,
    {
        if a[i] != b[i] {
            return false;
        }
        i = i + 1;
    }
    assert(a@ =~= b@);
    true
}

/// Decodes `data` as a value of `t`, and accepts it only when `data` is
/// exactly the canonical encoding of that value.
pub fn decode_strict(t: &AbiType, data: &Vec<u8>) -> (r: Result<AbiValue, AbiError>)
    requires
        wf(*t),
    ensures
        dec(*t, data@, 0) is Err ==> result_model(r) == dec(*t, data@, 0),
        dec(*t, data@, 0) is Ok ==> (r is Ok <==> (has_type(dec(*t, data@, 0)->Ok_0, *t)
            && enc(*t, dec(*t, data@, 0)->Ok_0) == data@)),
        dec(*t, data@, 0) is Ok && r is Err ==> r->Err_0 == AbiError::SchemaMismatch,
        r is Ok ==> result_model(r) == dec(*t, data@, 0) && enc(*t, r->Ok_0.model()) == data@,
{
    let v = match decode(t, data) {
        Ok(v) => v,
        Err(e) => {
            return Err(e);
        },
    };
    if !v.conforms_to(t) {
        return Err(AbiError::SchemaMismatch);
    }
    let mut out: Vec<u8> = Vec::new();
    if !encode_into(t, &v, &mut out) {
        let n = data.len();
        return Err(AbiError::SchemaMismatch);
    }
    assert(out@ =~= enc(*t, v.model()));
    if bytes_eq(out.as_slice(), data.as_slice()) {
        Ok(v)
    } else {
        Err(AbiError::SchemaMismatch)
    }
}

} // verus!
