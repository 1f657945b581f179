//! The boundary dispatcher: the entry points the host drives, each producing
//! exactly one response record.
//!
//! Every verified function here is proved free of panics, so the only
//! failure-containment left to the host-facing shell is around the engine
//! call itself. Each entry point reports every failure — malformed input,
//! unknown handle, engine failure — as a response with a failure status and a
//! message, never by aborting.

use crate::externals::{check_state_root, state_root_ok};
use crate::marshal::{
    apply_kind_of, check_message, convert_network_version, message_convertible,
    network_version_ok, spec_apply_kind_of, ApplyKind, ApplyResult, MessageInput,
};
use crate::registry::{create_transition, MachineRegistry, MachineState};
use crate::response::{CreateResponse, DropResponse, ExecuteResponse, FinishResponse, Status};
use crate::{default_config, spec_default_config};
use vstd::prelude::*;

verus! {

broadcast use vstd::string::group_string_axioms;

/// Message reported when a call names a handle the registry does not hold.
pub open spec fn invalid_machine_id_msg() -> Seq<char> {
    "invalid machine id"@
}

/// Message reported when the network version lies outside its range.
pub open spec fn bad_network_version_msg() -> Seq<char> {
    "network version out of range"@
}

/// Message reported when the state root does not parse as a content
/// identifier.
pub open spec fn bad_state_root_msg() -> Seq<char> {
    "invalid state root"@
}

/// Message reported when a message's fields do not convert to the engine's
/// native types.
pub open spec fn bad_message_msg() -> Seq<char> {
    "message conversion failure"@
}

/// Message reported by finish: the engine binding offers no state
/// finalization, and the call fails explicitly rather than silently.
pub open spec fn finish_unsupported_msg() -> Seq<char> {
    "state finalization is not supported"@
}

/// Everything a create call takes from the host, as plain values.
pub struct CreateParams {
    pub engine_version: u64,
    pub epoch: u64,
    pub token_amount: u64,
    pub network_version: u64,
    pub state_root: Vec<u8>,
    pub blockstore_id: u64,
    pub externs_id: u64,
}

/// The machine instance a successful create stores: the converted parameters
/// under the default configuration.
pub open spec fn machine_of(params: CreateParams) -> MachineState {
    MachineState {
        engine_version: params.engine_version,
        config: spec_default_config(),
        epoch: params.epoch,
        token_amount: params.token_amount,
        network_version: params.network_version as u32,
        state_root: params.state_root,
        blockstore_id: params.blockstore_id,
        externs_id: params.externs_id,
    }
}

/// Creates a machine from host-supplied values: converts the inputs,
/// rejecting a network version out of range and a state root that does not
/// parse as a content identifier, and on success stores the instance under a
/// freshly issued handle. On any failure the registry is untouched — no
/// handle is allocated and the counter does not advance.
///
/// The token amount needs no validity check: every 64-bit value denotes a
/// valid non-negative amount.
pub fn create_machine(reg: &mut MachineRegistry, params: CreateParams) -> (r: CreateResponse)
    requires
        old(reg).wf(),
        old(reg).next_handle() < u64::MAX,
    ensures
        final(reg).wf(),
        r.wf(),
        !network_version_ok(params.network_version) ==> {
            &&& r.is_failure_with(bad_network_version_msg())
            &&& final(reg).machines_spec() == old(reg).machines_spec()
            &&& final(reg).next_handle() == old(reg).next_handle()
        },
        network_version_ok(params.network_version) && !state_root_ok(params.state_root@) ==> {
            &&& r.is_failure_with(bad_state_root_msg())
            &&& final(reg).machines_spec() == old(reg).machines_spec()
            &&& final(reg).next_handle() == old(reg).next_handle()
        },
        network_version_ok(params.network_version) && state_root_ok(params.state_root@) ==> {
            &&& r.is_success_with(old(reg).next_handle())
            &&& create_transition(*old(reg), *final(reg), old(reg).next_handle(), machine_of(params))
        },
{
    let network_version = match convert_network_version(params.network_version) {
        Some(v) => v,
        None => {
            return CreateResponse::err("network version out of range".to_string());
        },
    };
    if !check_state_root(params.state_root.as_slice()) {
        return CreateResponse::err("invalid state root".to_string());
    }
    let machine = MachineState {
        engine_version: params.engine_version,
        config: default_config(),
        epoch: params.epoch,
        token_amount: params.token_amount,
        network_version,
        state_root: params.state_root,
        blockstore_id: params.blockstore_id,
        externs_id: params.externs_id,
    };
    let handle = reg.register(machine);
    CreateResponse::ok(handle)
}

/// Removes and drops the machine stored under the handle. Succeeds exactly
/// when the handle is live; on an unknown or already removed handle it fails
/// and leaves the registry untouched. The counter never moves, so a dropped
/// handle is never reissued.
pub fn drop_machine(reg: &mut MachineRegistry, machine_id: u64) -> (r: DropResponse)
    requires
        old(reg).wf(),
    ensures
        final(reg).wf(),
        r.wf(),
        final(reg).next_handle() == old(reg).next_handle(),
        old(reg).contains(machine_id) ==> {
            &&& r.is_success()
            &&& final(reg).machines_spec() == old(reg).machines_spec().remove(machine_id)
        },
        !old(reg).contains(machine_id) ==> {
            &&& r.is_failure_with(invalid_machine_id_msg())
            &&& final(reg).machines_spec() == old(reg).machines_spec()
        },
{
    if reg.remove(machine_id) {
        DropResponse::ok()
    } else {
        DropResponse::err("invalid machine id".to_string())
    }
}

/// A validated execution order, ready to hand to the engine: the live handle,
/// the message (whose fields are known to convert), and the decoded apply
/// kind.
pub struct ExecutionRequest {
    pub machine_id: u64,
    pub message: MessageInput,
    pub apply_kind: ApplyKind,
}

/// The input-side half of message execution: decodes the apply kind, converts
/// the message, and looks the handle up. Returns the validated request for
/// the engine, or the failure response — a conversion failure is reported
/// before the handle is consulted, and an unknown handle is reported as an
/// invalid machine id. The registry is never mutated.
pub fn begin_execute(
    reg: &MachineRegistry,
    machine_id: u64,
    message: MessageInput,
    apply_kind: u64,
) -> (r: Result<ExecutionRequest, ExecuteResponse>)
    ensures
        r is Ok <==> message_convertible(message) && reg.contains(machine_id),
        r matches Ok(req) ==> {
            &&& req.machine_id == machine_id
            &&& req.message == message
            &&& req.apply_kind == spec_apply_kind_of(apply_kind)
        },
        r matches Err(resp) ==> {
            &&& resp.wf()
            &&& !message_convertible(message) ==> resp.is_failure_with(bad_message_msg())
            &&& message_convertible(message) ==> resp.is_failure_with(invalid_machine_id_msg())
        },
{
    let kind = apply_kind_of(apply_kind);
    if !check_message(&message) {
        return Err(ExecuteResponse::err("message conversion failure".to_string()));
    }
    if !reg.contains_handle(machine_id) {
        return Err(ExecuteResponse::err("invalid machine id".to_string()));
    }
    Ok(ExecutionRequest { machine_id, message, apply_kind: kind })
}

/// The result-side half of message execution: turns the engine's outcome for
/// a validated request into the response record — a success carries the
/// marshaled apply result as its payload, an engine failure carries the
/// engine's own error text. This holds for every outcome the engine can
/// return.
pub fn complete_execute(outcome: Result<ApplyResult, String>) -> (r: ExecuteResponse)
    ensures
        r.wf(),
        outcome matches Ok(a) ==> r.is_success_with(a),
        outcome matches Err(e) ==> r.is_failure_with(e@),
{
    match outcome {
        Ok(a) => ExecuteResponse::ok(a),
        Err(e) => ExecuteResponse::err(e),
    }
}

/// Finalizing a message sequence: the engine binding offers no state
/// finalization, so the call fails explicitly for a live handle — it never
/// silently succeeds — and reports an invalid machine id for an unknown one.
/// The registry is never mutated.
pub fn finish_message(reg: &MachineRegistry, machine_id: u64) -> (r: FinishResponse)
    ensures
        r.wf(),
        r.status == Status::UnclassifiedError,
        reg.contains(machine_id) ==> r.is_failure_with(finish_unsupported_msg()),
        !reg.contains(machine_id) ==> r.is_failure_with(invalid_machine_id_msg()),
{
    if reg.contains_handle(machine_id) {
        FinishResponse::err("state finalization is not supported".to_string())
    } else {
        FinishResponse::err("invalid machine id".to_string())
    }
}

} // verus!
