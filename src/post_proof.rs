//! The proof-of-spacetime types a miner is created with, carried in the ABI
//! as `uint8` ordinals in declaration order.
use vstd::prelude::*;
use crate::abi::AbiValue;

verus! {

/// A registered proof-of-spacetime type.
#[derive(Clone, Copy, Debug, PartialEq, Eq, Structural)]
pub enum RegisteredPoStProof {
    StackedDRGWinning2KiBV1,
    StackedDRGWinning8MiBV1,
    StackedDRGWinning512MiBV1,
    StackedDRGWinning32GiBV1,
    StackedDRGWinning64GiBV1,
    StackedDRGWindow2KiBV1,
    StackedDRGWindow8MiBV1,
    StackedDRGWindow512MiBV1,
    StackedDRGWindow32GiBV1,
    StackedDRGWindow64GiBV1,
    Invalid,
}

/// The number of proof types: ordinals run from zero to one less.
pub const POST_PROOF_COUNT: u8 = 11;

/// The ordinal of each proof type, in declaration order.
pub open spec fn ordinal_of(p: RegisteredPoStProof) -> u8 {
    match p {
        RegisteredPoStProof::StackedDRGWinning2KiBV1 => 0,
        RegisteredPoStProof::StackedDRGWinning8MiBV1 => 1,
        RegisteredPoStProof::StackedDRGWinning512MiBV1 => 2,
        RegisteredPoStProof::StackedDRGWinning32GiBV1 => 3,
        RegisteredPoStProof::StackedDRGWinning64GiBV1 => 4,
        RegisteredPoStProof::StackedDRGWindow2KiBV1 => 5,
        RegisteredPoStProof::StackedDRGWindow8MiBV1 => 6,
        RegisteredPoStProof::StackedDRGWindow512MiBV1 => 7,
        RegisteredPoStProof::StackedDRGWindow32GiBV1 => 8,
        RegisteredPoStProof::StackedDRGWindow64GiBV1 => 9,
        RegisteredPoStProof::Invalid => 10,
    }
}

impl RegisteredPoStProof {
    /// The ordinal that stands for this proof type.
    pub fn ordinal(&self) -> (r: u8)
        ensures
            r == ordinal_of(*self),
            r < POST_PROOF_COUNT,
    {
        match self {
            RegisteredPoStProof::StackedDRGWinning2KiBV1 => 0,
            RegisteredPoStProof::StackedDRGWinning8MiBV1 => 1,
            RegisteredPoStProof::StackedDRGWinning512MiBV1 => 2,
            RegisteredPoStProof::StackedDRGWinning32GiBV1 => 3,
            RegisteredPoStProof::StackedDRGWinning64GiBV1 => 4,
            RegisteredPoStProof::StackedDRGWindow2KiBV1 => 5,
            RegisteredPoStProof::StackedDRGWindow8MiBV1 => 6,
            RegisteredPoStProof::StackedDRGWindow512MiBV1 => 7,
            RegisteredPoStProof::StackedDRGWindow32GiBV1 => 8,
            RegisteredPoStProof::StackedDRGWindow64GiBV1 => 9,
            RegisteredPoStProof::Invalid => 10,
        }
    }

    /// The proof type of an ordinal; `None` for an ordinal out of range.
    pub fn from_ordinal(n: u64) -> (r: Option<RegisteredPoStProof>)
        ensures
            r is Some <==> n < POST_PROOF_COUNT,
            r is Some ==> ordinal_of(r->0) == n,
    {
        match n {
            0 => Some(RegisteredPoStProof::StackedDRGWinning2KiBV1),
            1 => Some(RegisteredPoStProof::StackedDRGWinning8MiBV1),
            2 => Some(RegisteredPoStProof::StackedDRGWinning512MiBV1),
            3 => Some(RegisteredPoStProof::StackedDRGWinning32GiBV1),
            4 => Some(RegisteredPoStProof::StackedDRGWinning64GiBV1),
            5 => Some(RegisteredPoStProof::StackedDRGWindow2KiBV1),
            6 => Some(RegisteredPoStProof::StackedDRGWindow8MiBV1),
            7 => Some(RegisteredPoStProof::StackedDRGWindow512MiBV1),
            8 => Some(RegisteredPoStProof::StackedDRGWindow32GiBV1),
            9 => Some(RegisteredPoStProof::StackedDRGWindow64GiBV1),
            10 => Some(RegisteredPoStProof::Invalid),
            _ => None,
        }
    }

    /// The ABI value of this proof type.
    pub fn to_abi(&self) -> (r: AbiValue)
        ensures
            r == AbiValue::Uint(ordinal_of(*self) as u64),
    {
        AbiValue::Uint(self.ordinal() as u64)
    }
}

/// Ordinals identify proof types: converting one way and back is the
/// identity.
pub proof fn lemma_ordinal_injective(p: RegisteredPoStProof, q: RegisteredPoStProof)
    ensures
        ordinal_of(p) == ordinal_of(q) ==> p == q,
        ordinal_of(p) < POST_PROOF_COUNT,
{
}

} // verus!
