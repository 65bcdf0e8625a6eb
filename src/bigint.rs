//! Signed integers as a big-endian magnitude and a sign flag.
use vstd::prelude::*;
use crate::abi::{copy_range, lemma_model_list, model_list, AbiType, AbiValue, Val};

verus! {

/// The value of a big-endian byte string.
pub open spec fn be_nat(s: Seq<u8>) -> nat
    decreases s.len(),
{
    if s.len() == 0 {
        0
    } else {
        be_nat(s.drop_last()) * 256 + s.last() as nat
    }
}

/// The shortest big-endian byte string of `n`: empty for zero.
pub open spec fn min_be(n: nat) -> Seq<u8>
    decreases n,
{
    if n == 0 {
        seq![]
    } else {
        min_be(n / 256).push((n % 256) as u8)
    }
}

/// `256^k`.
pub open spec fn pow256(k: nat) -> nat
    decreases k,
{
    if k == 0 {
        1
    } else {
        256 * pow256((k - 1) as nat)
    }
}

/// The integer a magnitude and a sign flag stand for; the sign of zero is
/// ignored.
pub open spec fn value_of(magnitude: Seq<u8>, negative: bool) -> int {
    if negative {
        -(be_nat(magnitude) as int)
    } else {
        be_nat(magnitude) as int
    }
}

/// The canonical form: no leading zero byte, and zero is never negative.
pub open spec fn is_canonical(magnitude: Seq<u8>, negative: bool) -> bool {
    (magnitude.len() > 0 ==> magnitude[0] != 0) && (magnitude.len() == 0 ==> !negative)
}

/// The canonical magnitude and sign of `n`.
pub open spec fn to_parts(n: int) -> (Seq<u8>, bool) {
    (min_be((if n < 0 { -n } else { n }) as nat), n < 0)
}

/// A signed integer as a magnitude and a sign flag.
#[derive(Debug)]
pub struct BigInt {
    /// Big-endian magnitude.
    pub magnitude: Vec<u8>,
    /// Whether the value is below zero.
    pub negative: bool,
}

impl BigInt {
    pub open spec fn value(&self) -> int {
        value_of(self.magnitude@, self.negative)
    }

    pub open spec fn canonical(&self) -> bool {
        is_canonical(self.magnitude@, self.negative)
    }
}

pub proof fn lemma_be_nat_min_be(n: nat)
    ensures
        be_nat(min_be(n)) == n,
        n > 0 ==> min_be(n).len() > 0 && min_be(n)[0] != 0,
    decreases n,
{
    if n > 0 {
        lemma_be_nat_min_be(n / 256);
        let s = min_be(n);
        assert(s.drop_last() =~= min_be(n / 256));
        if n / 256 == 0 {
            assert(s[0] == (n % 256) as u8);
        } else {
            assert(s[0] == min_be(n / 256)[0]);
        }
    }
}

/// A canonical magnitude is the shortest byte string of its value.
pub proof fn lemma_min_be_unique(s: Seq<u8>)
    requires
        s.len() > 0 ==> s[0] != 0,
    ensures
        min_be(be_nat(s)) == s,
    decreases s.len(),
{
    if s.len() > 0 {
        let p = s.drop_last();
        if p.len() > 0 {
            assert(p[0] == s[0]);
        }
        lemma_min_be_unique(p);
        lemma_be_nat_min_be(be_nat(p));
        let n = be_nat(s);
        assert(n == be_nat(p) * 256 + s.last() as nat);
        assert(n / 256 == be_nat(p) && n % 256 == s.last() as nat) by (nonlinear_arith)
            requires
                n == be_nat(p) * 256 + s.last() as nat,
                s.last() < 256,
        ;
        if n == 0 {
            assert(be_nat(p) == 0) by (nonlinear_arith)
                requires
                    n == be_nat(p) * 256 + s.last() as nat,
                    n == 0,
            ;
            assert(p.len() == 0) by {
                if p.len() > 0 {
                    lemma_be_nat_min_be(0);
                }
            }
            assert(s[0] == s.last());
        }
        assert(s =~= p.push(s.last()));
    }
}

/// A leading zero byte does not change the value.
pub proof fn lemma_be_nat_leading_zero(s: Seq<u8>)
    ensures
        be_nat(seq![0u8] + s) == be_nat(s),
    decreases s.len(),
{
    if s.len() > 0 {
        lemma_be_nat_leading_zero(s.drop_last());
        assert((seq![0u8] + s).drop_last() =~= seq![0u8] + s.drop_last());
    } else {
        assert((seq![0u8] + s).drop_last() =~= s);
    }
}

/// Magnitude-and-sign of an integer, read back, is the integer; zero is
/// empty and not negative.
pub proof fn lemma_bigint_round_trip(n: int)
    ensures
        value_of(to_parts(n).0, to_parts(n).1) == n,
        is_canonical(to_parts(n).0, to_parts(n).1),
        to_parts(0) == (Seq::<u8>::empty(), false),
{
    let m = (if n < 0 { -n } else { n }) as nat;
    lemma_be_nat_min_be(m);
    assert(min_be(0) =~= Seq::<u8>::empty());
}

/// Appends the shortest big-endian bytes of `m`.
fn push_min_be(m: u128, out: &mut Vec<u8>)
    ensures
        final(out)@ == old(out)@ + min_be(m as nat),
    decreases m,
{
    if m > 0 {
        push_min_be(m / 256, out);
        out.push((m % 256) as u8);
        assert(out@ =~= old(out)@ + min_be(m as nat));
    } else {
        assert(out@ =~= old(out)@ + min_be(m as nat));
    }
}

impl BigInt {
    /// The canonical magnitude and sign of `n`.
    pub fn from_i128(n: i128) -> (r: BigInt)
        ensures
            (r.magnitude@, r.negative) == to_parts(n as int),
            r.value() == n,
            r.canonical(),
    {
        let m: u128 = if n < 0 {
            ((-(n + 1)) as u128) + 1
        } else {
            n as u128
        };
        let mut magnitude: Vec<u8> = Vec::new();
        push_min_be(m, &mut magnitude);
        assert(magnitude@ =~= min_be(m as nat));
        proof {
            lemma_bigint_round_trip(n as int);
        }
        BigInt { magnitude, negative: n < 0 }
    }

    /// The same value in canonical form: leading zero bytes dropped, and
    /// zero not negative.
    pub fn to_canonical(&self) -> (r: BigInt)
        ensures
            r.value() == self.value(),
            r.canonical(),
            (r.magnitude@, r.negative) == to_parts(self.value()),
    {
        let mut start: usize = 0;
        assert(self.magnitude@.subrange(0, self.magnitude@.len() as int) =~= self.magnitude@);
        while start < self.magnitude.len() && self.magnitude[start] == 0
            invariant
                start <= self.magnitude@.len(),
                be_nat(self.magnitude@.subrange(start as int, self.magnitude@.len() as int))
                    == be_nat(self.magnitude@),
            decreases self.magnitude@.len() - start,
        {
            let ghost rest = self.magnitude@.subrange(start + 1, self.magnitude@.len() as int);
            proof {
                lemma_be_nat_leading_zero(rest);
                assert(self.magnitude@.subrange(start as int, self.magnitude@.len() as int)
                    =~= seq![0u8] + rest);
            }
            start = start + 1;
        }
        let magnitude = copy_range(&self.magnitude, start, self.magnitude.len() - start);
        let negative = self.negative && magnitude.len() > 0;
        proof {
            if magnitude@.len() > 0 {
                assert(magnitude@[0] == self.magnitude@[start as int]);
            }
            lemma_min_be_unique(magnitude@);
            if magnitude@.len() == 0 {
                assert(be_nat(magnitude@) == 0);
            } else {
                lemma_be_nat_min_be(be_nat(magnitude@));
                assert(be_nat(magnitude@) != 0);
            }
        }
        BigInt { magnitude, negative }
    }
}

/// A magnitude that starts with a non-zero byte is at least `256^(len-1)`.
proof fn lemma_be_nat_lower(s: Seq<u8>)
    requires
        s.len() > 0,
        s[0] != 0,
    ensures
        be_nat(s) >= pow256((s.len() - 1) as nat),
    decreases s.len(),
{
    let p = s.drop_last();
    if p.len() > 0 {
        assert(p[0] == s[0]);
        lemma_be_nat_lower(p);
    } else {
        assert(s.last() == s[0]);
    }
}

/// A magnitude of `k` bytes is below `256^k`.
proof fn lemma_be_nat_upper(s: Seq<u8>)
    ensures
        be_nat(s) < pow256(s.len()),
    decreases s.len(),
{
    if s.len() > 0 {
        lemma_be_nat_upper(s.drop_last());
    }
}

proof fn lemma_pow256_mono(i: nat, k: nat)
    requires
        i <= k,
    ensures
        pow256(i) <= pow256(k),
    decreases k,
{
    if i < k {
        lemma_pow256_mono(i, (k - 1) as nat);
    }
}

proof fn lemma_pow256_16()
    ensures
        pow256(16) == 0x1_0000_0000_0000_0000_0000_0000_0000_0000,
{
    assert(pow256(0) == 1);
    assert(pow256(1) == 0x100);
    assert(pow256(2) == 0x1_0000);
    assert(pow256(3) == 0x100_0000);
    assert(pow256(4) == 0x1_0000_0000);
    assert(pow256(5) == 0x100_0000_0000);
    assert(pow256(6) == 0x1_0000_0000_0000);
    assert(pow256(7) == 0x100_0000_0000_0000);
    assert(pow256(8) == 0x1_0000_0000_0000_0000);
    assert(pow256(9) == 0x100_0000_0000_0000_0000);
    assert(pow256(10) == 0x1_0000_0000_0000_0000_0000);
    assert(pow256(11) == 0x100_0000_0000_0000_0000_0000);
    assert(pow256(12) == 0x1_0000_0000_0000_0000_0000_0000);
    assert(pow256(13) == 0x100_0000_0000_0000_0000_0000_0000);
    assert(pow256(14) == 0x1_0000_0000_0000_0000_0000_0000_0000);
    assert(pow256(15) == 0x100_0000_0000_0000_0000_0000_0000_0000);
}

/// The ABI schema of a big integer: `(bytes magnitude, bool negative)`.
pub fn bigint_type() -> (r: AbiType)
    ensures
        r is Tuple,
        r->Tuple_0@ == seq![AbiType::Bytes, AbiType::Bool],
{
    let r = AbiType::Tuple(vec![AbiType::Bytes, AbiType::Bool]);
    assert(r->Tuple_0@ =~= seq![AbiType::Bytes, AbiType::Bool]);
    r
}

impl BigInt {
    /// The value as an `i128`, when it is in range.
    pub fn to_i128(&self) -> (r: Option<i128>)
        ensures
            r is Some <==> i128::MIN <= self.value() <= i128::MAX,
            r is Some ==> r->0 == self.value(),
    {
        let c = self.to_canonical();
        let len = c.magnitude.len();
        if len > 16 {
            proof {
                lemma_be_nat_lower(c.magnitude@);
                lemma_pow256_mono(16, (len - 1) as nat);
                lemma_pow256_16();
            }
            return None;
        }
        let mut m: u128 = 0;
        let mut i: usize = 0;
        while i < len
            invariant
                len == c.magnitude@.len(),
                len <= 16,
                i <= len,
                m == be_nat(c.magnitude@.subrange(0, i as int)),
            decreases len - i,
        {
            proof {
                let p = c.magnitude@.subrange(0, i + 1);
                assert(p.drop_last() =~= c.magnitude@.subrange(0, i as int));
                lemma_be_nat_upper(p);
                lemma_pow256_mono((i + 1) as nat, 16);
                lemma_pow256_16();
            }
            m = m * 256 + c.magnitude[i] as u128;
            i = i + 1;
        }
        assert(c.magnitude@.subrange(0, len as int) =~= c.magnitude@);
        if c.negative {
            if m > 0x8000_0000_0000_0000_0000_0000_0000_0000 {
                None
            } else if m == 0x8000_0000_0000_0000_0000_0000_0000_0000 {
                Some(i128::MIN)
            } else {
                Some(-(m as i128))
            }
        } else if m > 0x7fff_ffff_ffff_ffff_ffff_ffff_ffff_ffff {
            None
        } else {
            Some(m as i128)
        }
    }

    /// The ABI value `(magnitude, negative)`.
    pub fn to_abi(&self) -> (r: AbiValue)
        ensures
            r.model() == Val::List(seq![Val::Bytes(self.magnitude@), Val::Bool(self.negative)]),
    {
        let magnitude = copy_range(&self.magnitude, 0, self.magnitude.len());
        assert(magnitude@ =~= self.magnitude@);
        let items = vec![AbiValue::Bytes(magnitude), AbiValue::Bool(self.negative)];
        proof {
            lemma_model_list(items@);
            assert(model_list(items@) =~= seq![Val::Bytes(self.magnitude@), Val::Bool(self.negative)]);
        }
        AbiValue::List(items)
    }

    /// The big integer held by the ABI value `(magnitude, negative)`, as it
    /// stands; a magnitude with leading zero bytes is accepted.
    pub fn from_abi(v: &AbiValue) -> (r: Option<BigInt>)
        ensures
            r is Some <==> (v.model() is List && v.model()->List_0.len() == 2
                && v.model()->List_0[0] is Bytes && v.model()->List_0[1] is Bool),
            r is Some ==> r->0.magnitude@ == v.model()->List_0[0]->Bytes_0 && r->0.negative
                == v.model()->List_0[1]->Bool_0,
    {
        match v {
            AbiValue::List(items) => {
                proof {
                    lemma_model_list(items@);
                }
                if items.len() != 2 {
                    return None;
                }
                match (&items[0], &items[1]) {
                    (AbiValue::Bytes(b), AbiValue::Bool(n)) => {
                        let magnitude = copy_range(b, 0, b.len());
                        assert(magnitude@ =~= b@);
                        Some(BigInt { magnitude, negative: *n })
                    },
                    _ => None,
                }
            },
            _ => None,
        }
    }
}

} // verus!
