//! Trusted declarations for the outside parsers the marshaling layer calls.
//!
//! Both parsers are pure functions of their input bytes; their verdicts are
//! given names here, and the wrappers' contracts relate the calls to those
//! names.

use vstd::prelude::*;

verus! {

/// Whether the bytes decode as an address (a protocol byte followed by a
/// payload that is valid for that protocol).
pub uninterp spec fn address_ok(b: Seq<u8>) -> bool;

/// Relies on fvm_shared::address::Address::from_bytes: whether the bytes
/// decode as an address depends on the bytes alone.
#[verifier::external_body]
pub(crate) fn check_address(b: &[u8]) -> (r: bool)
    ensures
        r == address_ok(b@),
{
    fvm_shared::address::Address::from_bytes(b).is_ok()
}

/// Whether the bytes parse as a binary content identifier.
pub uninterp spec fn state_root_ok(b: Seq<u8>) -> bool;

/// Relies on cid::Cid::try_from on a byte slice: whether the bytes parse as
/// a content identifier depends on the bytes alone.
#[verifier::external_body]
pub(crate) fn check_state_root(b: &[u8]) -> (r: bool)
    ensures
        r == state_root_ok(b@),
{
    cid::Cid::try_from(b).is_ok()
}

} // verus!
