//! Bridge between the Ethereum ABI calling convention and the native actor
//! call envelope: word encodings, an ABI codec over explicit schemas, a
//! sign-magnitude big-integer codec, call selectors, and the CBOR envelope.
use vstd::prelude::*;

pub mod words;
pub mod abi;
pub mod bigint;
pub mod hexcode;
pub mod envelope;
pub mod selector;
pub mod registry;
pub mod bridge;
pub mod post_proof;

verus! {

} // verus!
