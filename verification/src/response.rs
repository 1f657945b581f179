//! Response records: the uniform result envelope every boundary call returns.
//!
//! Invariant of every record: a failing response carries an error message and
//! no payload; a successful response carries a payload (where its kind has
//! one) and no error message.

use crate::marshal::ApplyResult;
use vstd::prelude::*;

verus! {

broadcast use vstd::string::group_string_axioms;

/// Status classes a boundary call can report.
#[derive(Clone, Copy, PartialEq, Eq, Structural, Debug)]
pub enum Status {
    NoError,
    UnclassifiedError,
}

/// Result of a create call: on success, the freshly issued machine handle.
pub struct CreateResponse {
    pub status: Status,
    pub error_msg: Option<String>,
    pub machine_id: Option<u64>,
}

/// Result of a drop call: a bare status with an error message on failure.
pub struct DropResponse {
    pub status: Status,
    pub error_msg: Option<String>,
}

/// Result of a message execution: on success, the marshaled apply result.
pub struct ExecuteResponse {
    pub status: Status,
    pub error_msg: Option<String>,
    pub payload: Option<ApplyResult>,
}

/// Result of a finish call: a bare status with an error message on failure.
pub struct FinishResponse {
    pub status: Status,
    pub error_msg: Option<String>,
}

/// The error-message field is present if and only if the status reports a
/// failure.
pub open spec fn error_msg_matches_status(status: Status, error_msg: Option<String>) -> bool {
    error_msg is Some <==> status != Status::NoError
}

impl CreateResponse {
    /// Well-formed: the error message accompanies exactly the failures, and a
    /// handle accompanies exactly the successes.
    pub open spec fn wf(&self) -> bool {
        &&& error_msg_matches_status(self.status, self.error_msg)
        &&& (self.machine_id is Some <==> self.status == Status::NoError)
    }

    pub open spec fn is_success_with(&self, id: u64) -> bool {
        &&& self.status == Status::NoError
        &&& self.error_msg is None
        &&& self.machine_id == Some(id)
    }

    pub open spec fn is_failure_with(&self, msg: Seq<char>) -> bool {
        &&& self.status == Status::UnclassifiedError
        &&& self.error_msg matches Some(m) && m@ == msg
        &&& self.machine_id is None
    }

    pub fn ok(id: u64) -> (r: Self)
        ensures
            r.wf(),
            r.is_success_with(id),
    {
        CreateResponse { status: Status::NoError, error_msg: None, machine_id: Some(id) }
    }

    pub fn err(msg: String) -> (r: Self)
        ensures
            r.wf(),
            r.is_failure_with(msg@),
    {
        CreateResponse { status: Status::UnclassifiedError, error_msg: Some(msg), machine_id: None }
    }
}

impl DropResponse {
    pub open spec fn wf(&self) -> bool {
        error_msg_matches_status(self.status, self.error_msg)
    }

    pub open spec fn is_success(&self) -> bool {
        &&& self.status == Status::NoError
        &&& self.error_msg is None
    }

    pub open spec fn is_failure_with(&self, msg: Seq<char>) -> bool {
        &&& self.status == Status::UnclassifiedError
        &&& self.error_msg matches Some(m) && m@ == msg
    }

    pub fn ok() -> (r: Self)
        ensures
            r.wf(),
            r.is_success(),
    {
        DropResponse { status: Status::NoError, error_msg: None }
    }

    pub fn err(msg: String) -> (r: Self)
        ensures
            r.wf(),
            r.is_failure_with(msg@),
    {
        DropResponse { status: Status::UnclassifiedError, error_msg: Some(msg) }
    }
}

impl ExecuteResponse {
    pub open spec fn wf(&self) -> bool {
        &&& error_msg_matches_status(self.status, self.error_msg)
        &&& (self.payload is Some <==> self.status == Status::NoError)
    }

    pub open spec fn is_success_with(&self, payload: ApplyResult) -> bool {
        &&& self.status == Status::NoError
        &&& self.error_msg is None
        &&& self.payload == Some(payload)
    }

    pub open spec fn is_failure_with(&self, msg: Seq<char>) -> bool {
        &&& self.status == Status::UnclassifiedError
        &&& self.error_msg matches Some(m) && m@ == msg
        &&& self.payload is None
    }

    pub fn ok(payload: ApplyResult) -> (r: Self)
        ensures
            r.wf(),
            r.is_success_with(payload),
    {
        ExecuteResponse { status: Status::NoError, error_msg: None, payload: Some(payload) }
    }

    pub fn err(msg: String) -> (r: Self)
        ensures
            r.wf(),
            r.is_failure_with(msg@),
    {
        ExecuteResponse { status: Status::UnclassifiedError, error_msg: Some(msg), payload: None }
    }
}

impl FinishResponse {
    pub open spec fn wf(&self) -> bool {
        error_msg_matches_status(self.status, self.error_msg)
    }

    pub open spec fn is_failure_with(&self, msg: Seq<char>) -> bool {
        &&& self.status == Status::UnclassifiedError
        &&& self.error_msg matches Some(m) && m@ == msg
    }

    pub fn err(msg: String) -> (r: Self)
        ensures
            r.wf(),
            r.is_failure_with(msg@),
    {
        FinishResponse { status: Status::UnclassifiedError, error_msg: Some(msg) }
    }
}

/// Law: for every kind of well-formed response record, the error-message
/// field is present if and only if the status code reports a failure.
pub proof fn lemma_error_message_iff_failure(
    c: CreateResponse,
    d: DropResponse,
    e: ExecuteResponse,
    f: FinishResponse,
)
    requires
        c.wf(),
        d.wf(),
        e.wf(),
        f.wf(),
    ensures
        c.error_msg is Some <==> c.status != Status::NoError,
        d.error_msg is Some <==> d.status != Status::NoError,
        e.error_msg is Some <==> e.status != Status::NoError,
        f.error_msg is Some <==> f.status != Status::NoError,
{
}

} // verus!
