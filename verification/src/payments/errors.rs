//! The errors of the payments API.

use vstd::prelude::*;

use crate::domain_common::is_version_7;
use crate::ids::fresh_id;

verus! {

/// The body of an error response.
#[derive(Debug)]
pub struct Problem {
    pub type_: &'static str,
    pub title: &'static str,
    pub status: u16,
    pub code: &'static str,
    pub detail: String,
    pub request_id: u128,
}

/// Why a request fails.
#[derive(Debug, Clone, Copy, PartialEq, Eq, Structural)]
pub enum ApiError {
    FaultControlForbidden,
}

impl ApiError {
    /// The error in words.
    pub fn message(&self) -> (r: String)
        ensures
            r@ == "missing or invalid X-Test-Token"@,
    {
        "missing or invalid X-Test-Token".to_owned()
    }

    /// The status and the body of the response to the error.
    pub fn parts(&self, request_id: u128) -> (r: (u16, Problem))
        ensures
            r.0 == 403,
            r.1.type_@ == "about:blank"@,
            r.1.title@ == "Fault Control Forbidden"@,
            r.1.status == 403,
            r.1.code@ == "FAULT_CONTROL_FORBIDDEN"@,
            r.1.detail@ == "missing or invalid X-Test-Token"@,
            r.1.request_id == request_id,
    {
        (
            403,
            Problem {
                type_: "about:blank",
                title: "Fault Control Forbidden",
                status: 403,
                code: "FAULT_CONTROL_FORBIDDEN",
                detail: self.message(),
                request_id,
            },
        )
    }

    /// The response to the error, under a fresh request identifier.
    pub fn response(&self) -> (r: (u16, Problem))
        ensures
            r.0 == 403,
            r.1.type_@ == "about:blank"@,
            r.1.title@ == "Fault Control Forbidden"@,
            r.1.status == 403,
            r.1.code@ == "FAULT_CONTROL_FORBIDDEN"@,
            r.1.detail@ == "missing or invalid X-Test-Token"@,
            is_version_7(r.1.request_id),
    {
        self.parts(fresh_id())
    }
}

/// A request without the token is refused with 403.
pub proof fn refusals_are_answered(e: &ApiError, request_id: u128, r: (u16, Problem))
    requires
        call_ensures(ApiError::parts, (e, request_id), r),
    ensures
        ({
            let (status, problem) = r;
            &&& status == problem.status == 403
            &&& problem.code@ == "FAULT_CONTROL_FORBIDDEN"@
            &&& problem.title@ == "Fault Control Forbidden"@
            &&& problem.detail@ == "missing or invalid X-Test-Token"@
            &&& problem.request_id == request_id
        }),
{
}

}
