//! Marshaling of host-supplied plain values into the forms the boundary and
//! the execution engine work with, and of engine results back to the host.

use crate::externals::{address_ok, check_address};
use vstd::prelude::*;

verus! {

/// Whether a message is treated as an externally signed transaction
/// (`Explicit`) or a system-originated call (`Implicit`).
#[derive(Clone, Copy, PartialEq, Eq, Structural, Debug)]
pub enum ApplyKind {
    Explicit,
    Implicit,
}

/// The wire encoding of an apply kind: zero selects `Explicit`, anything
/// else selects `Implicit`.
pub open spec fn spec_apply_kind_of(raw: u64) -> ApplyKind {
    if raw == 0 {
        ApplyKind::Explicit
    } else {
        ApplyKind::Implicit
    }
}

pub fn apply_kind_of(raw: u64) -> (k: ApplyKind)
    ensures
        k == spec_apply_kind_of(raw),
{
    if raw == 0 {
        ApplyKind::Explicit
    } else {
        ApplyKind::Implicit
    }
}

/// A network version is valid when it lies in the 32-bit range the engine's
/// version numbering uses.
pub open spec fn network_version_ok(v: u64) -> bool {
    v <= u32::MAX
}

/// Converts a host-supplied network version, rejecting values outside the
/// 32-bit range.
pub fn convert_network_version(v: u64) -> (r: Option<u32>)
    ensures
        r is Some <==> network_version_ok(v),
        r matches Some(x) ==> x == v,
{
    if v <= u32::MAX as u64 {
        Some(v as u32)
    } else {
        None
    }
}

/// A message as the host supplies it: plain numbers and byte strings.
pub struct MessageInput {
    pub version: u64,
    pub from: Vec<u8>,
    pub to: Vec<u8>,
    pub sequence: u64,
    pub value: u64,
    pub method_num: u64,
    pub params: Vec<u8>,
    pub gas_limit: u64,
    pub gas_fee_cap: u64,
    pub gas_premium: u64,
}

/// A message converts to the engine's native form exactly when both address
/// fields decode as addresses; every other field is a plain number or an
/// opaque parameter block and always converts.
pub open spec fn message_convertible(m: MessageInput) -> bool {
    address_ok(m.from@) && address_ok(m.to@)
}

/// Checks that a host-supplied message converts to the engine's native form.
pub fn check_message(m: &MessageInput) -> (r: bool)
    ensures
        r == message_convertible(*m),
{
    let from_ok = check_address(m.from.as_slice());
    let to_ok = check_address(m.to.as_slice());
    from_ok && to_ok
}

/// The fields of an engine apply result that are surfaced to the host.
pub struct ApplyResult {
    pub exit_code: u64,
    pub return_data: Vec<u8>,
    pub gas_used: u64,
    pub penalty: u64,
    pub miner_tip: u64,
}

} // verus!
