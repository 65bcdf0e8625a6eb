//! Canonical signatures and the 4-byte call selectors derived from them.
use vstd::prelude::*;
use vstd::string::StringSliceAdditionalSpecFns;
use crate::abi::{lemma_shape_list, shape_list, AbiType, Ty};

verus! {

/// The Keccak-256 digest of a byte string.
pub uninterp spec fn keccak256_of(data: Seq<u8>) -> Seq<u8>;

/// Relies on `alloy_primitives::keccak256`: the 32-byte Keccak-256 digest of
/// the input, which depends on the input alone.
#[verifier::external_body]
fn keccak256(data: &[u8]) -> (r: Vec<u8>)
    ensures
        r@ == keccak256_of(data@),
        r@.len() == 32,
{
    alloy_primitives::keccak256(data).to_vec()
}

/// The selector of a canonical signature: the first four bytes of its digest.
pub open spec fn selector_of(signature: Seq<u8>) -> Seq<u8> {
    keccak256_of(signature).take(4)
}

/// The decimal digits of `n`.
pub open spec fn decimal(n: nat) -> Seq<u8>
    decreases n,
{
    if n < 10 {
        seq![(48 + n) as u8]
    } else {
        decimal(n / 10).push((48 + n % 10) as u8)
    }
}

/// The canonical name of a type, as it appears in a signature.
pub open spec fn canonical_name(t: Ty) -> Seq<u8>
    decreases t, 1nat, 0nat,
{
    match t {
        Ty::Uint(bits) => "uint".spec_bytes() + decimal(bits as nat),
        Ty::Int64 => "int64".spec_bytes(),
        Ty::Bool => "bool".spec_bytes(),
        Ty::Enum(_) => "uint8".spec_bytes(),
        Ty::Address => "address".spec_bytes(),
        Ty::Uint256 => "uint256".spec_bytes(),
        Ty::Bytes => "bytes".spec_bytes(),
        Ty::Str => "string".spec_bytes(),
        Ty::Array(e) => canonical_name(*e) + "[]".spec_bytes(),
        Ty::FixedArray(e, n) => canonical_name(*e) + "[".spec_bytes() + decimal(n as nat)
            + "]".spec_bytes(),
        Ty::Tuple(ts) => "(".spec_bytes() + names_of(t, ts.len()) + ")".spec_bytes(),
    }
}

/// The names of the first `k` element types of a tuple, joined by commas.
pub open spec fn names_of(t: Ty, k: nat) -> Seq<u8>
    decreases t, 0nat, k,
{
    match t {
        Ty::Tuple(ts) => if k == 0 || k > ts.len() {
            seq![]
        } else if k == 1 {
            canonical_name(ts[0])
        } else {
            names_of(t, (k - 1) as nat) + ",".spec_bytes() + canonical_name(ts[k - 1])
        },
        _ => seq![],
    }
}

/// The canonical signature of a method: its name, then its parameter tuple.
pub open spec fn signature_of(name: Seq<u8>, params: Ty) -> Seq<u8> {
    name + canonical_name(params)
}

/// Appends the bytes of `s`.
fn push_all(out: &mut Vec<u8>, s: &[u8])
    ensures
        final(out)@ == old(out)@ + s@,
{
    let ghost start = out@;
    let mut j: usize = 0;
    while j < s.len()
        invariant
            j <= s@.len(),
            out@ == start + s@.subrange(0, j as int),
        decreases s@.len() - j,
    {
        out.push(s[j]);
        j = j + 1;
        assert(out@ =~= start + s@.subrange(0, j as int));
    }
    assert(s@.subrange(0, s@.len() as int) =~= s@);
}

/// Appends the decimal digits of `n`.
fn push_decimal(out: &mut Vec<u8>, n: u64)
    ensures
        final(out)@ == old(out)@ + decimal(n as nat),
    decreases n,
{
    if n < 10 {
        out.push((48 + n) as u8);
        assert(out@ =~= old(out)@ + decimal(n as nat));
    } else {
        push_decimal(out, n / 10);
        out.push((48 + n % 10) as u8);
        assert(out@ =~= old(out)@ + decimal(n as nat));
    }
}

/// Appends the canonical name of `t`.
pub fn push_type_name(t: &AbiType, out: &mut Vec<u8>)
    ensures
        final(out)@ == old(out)@ + canonical_name(t.shape()),
    decreases *t,
{
    let ghost start = out@;
    match t {
        AbiType::Uint(bits) => {
            push_all(out, "uint".as_bytes());
            push_decimal(out, *bits as u64);
        },
        AbiType::Int64 => push_all(out, "int64".as_bytes()),
        AbiType::Bool => push_all(out, "bool".as_bytes()),
        AbiType::Enum(_) => push_all(out, "uint8".as_bytes()),
        AbiType::Address => push_all(out, "address".as_bytes()),
        AbiType::Uint256 => push_all(out, "uint256".as_bytes()),
        AbiType::Bytes => push_all(out, "bytes".as_bytes()),
        AbiType::Str => push_all(out, "string".as_bytes()),
        AbiType::Array(e) => {
            push_type_name(e, out);
            push_all(out, "[]".as_bytes());
        },
        AbiType::FixedArray(e, n) => {
            push_type_name(e, out);
            push_all(out, "[".as_bytes());
            push_decimal(out, *n as u64);
            push_all(out, "]".as_bytes());
        },
        AbiType::Tuple(ts) => {
            push_all(out, "(".as_bytes());
            proof {
                lemma_shape_list(ts@);
            }
            let ghost mid = out@;
            let mut k: usize = 0;
            while k < ts.len()
                invariant
                    *t == AbiType::Tuple(*ts),
                    k <= ts@.len(),
                    out@ == mid + names_of(t.shape(), k as nat),
                    shape_list(ts@).len() == ts@.len(),
                    forall|i: int| 0 <= i < ts@.len() ==> #[trigger] shape_list(ts@)[i] == ts@[i].shape(),
                decreases ts@.len() - k,
            {
                proof {
                    assert(decreases_to!(*t => t->Tuple_0));
                    assert(decreases_to!(t->Tuple_0 => t->Tuple_0@));
                    assert(decreases_to!(t->Tuple_0@ => t->Tuple_0@[k as int]));
                }
                if k > 0 {
                    push_all(out, ",".as_bytes());
                }
                push_type_name(&ts[k], out);
                k = k + 1;
            }
            push_all(out, ")".as_bytes());
        },
    }
    assert(out@ =~= start + canonical_name(t.shape()));
}

/// The canonical signature of a method named `name` whose parameters form
/// the tuple `params`.
pub fn signature(name: &str, params: &AbiType) -> (r: Vec<u8>)
    ensures
        r@ == signature_of(name.spec_bytes(), params.shape()),
{
    let mut out: Vec<u8> = Vec::new();
    push_all(&mut out, name.as_bytes());
    push_type_name(params, &mut out);
    assert(out@ =~= signature_of(name.spec_bytes(), params.shape()));
    out
}

/// The first four bytes of a digest (all of it when shorter).
pub fn selector_from_digest(digest: &Vec<u8>) -> (r: Vec<u8>)
    ensures
        r@ == if digest@.len() >= 4 {
            digest@.take(4)
        } else {
            digest@
        },
{
    let n: usize = if digest.len() >= 4 { 4 } else { digest.len() };
    let mut r: Vec<u8> = Vec::new();
    let mut j: usize = 0;
    while j < n
        invariant
            n <= digest@.len(),
            j <= n,
            r@ == digest@.take(j as int),
        decreases n - j,
    {
        r.push(digest[j]);
        j = j + 1;
        assert(r@ =~= digest@.take(j as int));
    }
    assert(digest@.take(digest@.len() as int) =~= digest@);
    r
}

/// The selector of a canonical signature given as bytes.
pub fn selector_for_bytes(signature: &Vec<u8>) -> (r: Vec<u8>)
    ensures
        r@ == selector_of(signature@),
        r@.len() == 4,
{
    let digest = keccak256(signature.as_slice());
    selector_from_digest(&digest)
}

/// The selector of a canonical signature such as `transfer((bytes),uint256)`.
pub fn selector_for(signature: &str) -> (r: Vec<u8>)
    ensures
        r@ == selector_of(signature.spec_bytes()),
        r@.len() == 4,
{
    let digest = keccak256(signature.as_bytes());
    selector_from_digest(&digest)
}

/// A selector depends on the canonical signature alone: equal signatures,
/// however obtained, give equal selectors.
pub proof fn lemma_selector_stable(a: Seq<u8>, b: Seq<u8>)
    requires
        a == b,
    ensures
        selector_of(a) == selector_of(b),
        selector_of(a).len() == 4 || keccak256_of(a).len() < 4,
{
}

} // verus!
