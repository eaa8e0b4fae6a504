//! The errors of the orders API.

use vstd::prelude::*;

use crate::domain_common::is_version_7;
use crate::ids::fresh_id;
use crate::orders::domain::ValidationError;
use crate::orders::repository::RepoError;
use crate::text::join;

verus! {

/// The body of an error response.
#[derive(Debug)]
pub struct Problem {
    pub type_: &'static str,
    pub title: &'static str,
    pub status: u16,
    pub code: &'static str,
    pub detail: String,
    pub request_id: u128,
}

/// Why a request fails.
#[derive(Debug)]
pub enum ApiError {
    InvalidIdempotencyKey(String),
    Validation(ValidationError),
    IdempotencyKeyReused,
    OrderNotFound,
    InjectedFault(String),
    PublishFailed(String),
    FaultControlForbidden,
    Internal(String),
}

/// The status, the code and the title of an error.
pub struct ProblemKind {
    pub status: u16,
    pub code: Seq<char>,
    pub title: Seq<char>,
}

impl ApiError {
    /// The status, the code and the title of the error.
    pub open spec fn kind(self) -> ProblemKind {
        match self {
            ApiError::InvalidIdempotencyKey(_) => ProblemKind {
                status: 400,
                code: "INVALID_IDEMPOTENCY_KEY"@,
                title: "Validation Failed"@,
            },
            ApiError::Validation(_) => ProblemKind {
                status: 400,
                code: "VALIDATION_FAILED"@,
                title: "Validation Failed"@,
            },
            ApiError::IdempotencyKeyReused => ProblemKind {
                status: 409,
                code: "IDEMPOTENCY_KEY_REUSED"@,
                title: "Idempotency Key Reused"@,
            },
            ApiError::OrderNotFound => ProblemKind {
                status: 404,
                code: "ORDER_NOT_FOUND"@,
                title: "Order Not Found"@,
            },
            ApiError::InjectedFault(_) => ProblemKind {
                status: 503,
                code: "INJECTED_FAULT"@,
                title: "Injected Fault"@,
            },
            ApiError::PublishFailed(_) => ProblemKind {
                status: 503,
                code: "EVENT_PUBLISH_FAILED"@,
                title: "Event Publish Failed"@,
            },
            ApiError::FaultControlForbidden => ProblemKind {
                status: 403,
                code: "FAULT_CONTROL_FORBIDDEN"@,
                title: "Fault Control Forbidden"@,
            },
            ApiError::Internal(_) => ProblemKind {
                status: 500,
                code: "INTERNAL_ERROR"@,
                title: "Internal Error"@,
            },
        }
    }

    /// The error in words.
    pub open spec fn words(self) -> Seq<char> {
        match self {
            ApiError::InvalidIdempotencyKey(_) => "missing or invalid Idempotency-Key header"@,
            ApiError::Validation(e) => e@.words(),
            ApiError::IdempotencyKeyReused =>
                "idempotency key reused with a different request body"@,
            ApiError::OrderNotFound => "order not found"@,
            ApiError::InjectedFault(name) => "injected fault fired: "@ + name@,
            ApiError::PublishFailed(error) => "failed to publish event: "@ + error@,
            ApiError::FaultControlForbidden => "missing or invalid X-Test-Token"@,
            ApiError::Internal(error) => error@,
        }
    }

    /// The error in words.
    pub fn message(&self) -> (r: String)
        ensures
            r@ == self.words(),
    {
        match self {
            ApiError::InvalidIdempotencyKey(_) =>
                "missing or invalid Idempotency-Key header".to_owned(),
            ApiError::Validation(e) => e.message(),
            ApiError::IdempotencyKeyReused =>
                "idempotency key reused with a different request body".to_owned(),
            ApiError::OrderNotFound => "order not found".to_owned(),
            ApiError::InjectedFault(name) => join("injected fault fired: ", name.as_str()),
            ApiError::PublishFailed(error) => join("failed to publish event: ", error.as_str()),
            ApiError::FaultControlForbidden => "missing or invalid X-Test-Token".to_owned(),
            ApiError::Internal(error) => error.clone(),
        }
    }

    /// The status and the body of the response to the error.
    pub fn parts(&self, request_id: u128) -> (r: (u16, Problem))
        ensures
            r.0 == self.kind().status,
            r.1.type_@ == "about:blank"@,
            r.1.title@ == self.kind().title,
            r.1.status == self.kind().status,
            r.1.code@ == self.kind().code,
            r.1.detail@ == self.words(),
            r.1.request_id == request_id,
    {
        let (status, code, title): (u16, &'static str, &'static str) = match self {
            ApiError::InvalidIdempotencyKey(_) => (
                400,
                "INVALID_IDEMPOTENCY_KEY",
                "Validation Failed",
            ),
            ApiError::Validation(_) => (400, "VALIDATION_FAILED", "Validation Failed"),
            ApiError::IdempotencyKeyReused => (
                409,
                "IDEMPOTENCY_KEY_REUSED",
                "Idempotency Key Reused",
            ),
            ApiError::OrderNotFound => (404, "ORDER_NOT_FOUND", "Order Not Found"),
            ApiError::InjectedFault(_) => (503, "INJECTED_FAULT", "Injected Fault"),
            ApiError::PublishFailed(_) => (503, "EVENT_PUBLISH_FAILED", "Event Publish Failed"),
            ApiError::FaultControlForbidden => (
                403,
                "FAULT_CONTROL_FORBIDDEN",
                "Fault Control Forbidden",
            ),
            ApiError::Internal(_) => (500, "INTERNAL_ERROR", "Internal Error"),
        };
        (
            status,
            Problem {
                type_: "about:blank",
                title,
                status,
                code,
                detail: self.message(),
                request_id,
            },
        )
    }

    /// The response to the error, under a fresh request identifier.
    pub fn response(&self) -> (r: (u16, Problem))
        ensures
            r.0 == self.kind().status,
            r.1.type_@ == "about:blank"@,
            r.1.title@ == self.kind().title,
            r.1.status == self.kind().status,
            r.1.code@ == self.kind().code,
            r.1.detail@ == self.words(),
            is_version_7(r.1.request_id),
    {
        self.parts(fresh_id())
    }

    /// The error of a refused creation.
    pub fn from_repo(e: RepoError) -> (r: ApiError)
        ensures
            e is IdempotencyKeyReused ==> r is IdempotencyKeyReused,
            e matches RepoError::Storage(detail) ==> r == ApiError::Internal(detail),
    {
        match e {
            RepoError::IdempotencyKeyReused => ApiError::IdempotencyKeyReused,
            RepoError::Storage(detail) => ApiError::Internal(detail),
        }
    }
}

/// What the caller did wrong is answered in the four hundreds, what the
/// service could not do in the five hundreds, and each error has a code of
/// its own.
pub proof fn errors_are_answered_by_their_kind(e: ApiError)
    ensures
        e.kind().status == match e {
            ApiError::InvalidIdempotencyKey(_) | ApiError::Validation(_) => 400u16,
            ApiError::FaultControlForbidden => 403,
            ApiError::OrderNotFound => 404,
            ApiError::IdempotencyKeyReused => 409,
            ApiError::Internal(_) => 500,
            ApiError::InjectedFault(_) | ApiError::PublishFailed(_) => 503,
        },
        e.kind().code == match e {
            ApiError::InvalidIdempotencyKey(_) => "INVALID_IDEMPOTENCY_KEY"@,
            ApiError::Validation(_) => "VALIDATION_FAILED"@,
            ApiError::IdempotencyKeyReused => "IDEMPOTENCY_KEY_REUSED"@,
            ApiError::OrderNotFound => "ORDER_NOT_FOUND"@,
            ApiError::InjectedFault(_) => "INJECTED_FAULT"@,
            ApiError::PublishFailed(_) => "EVENT_PUBLISH_FAILED"@,
            ApiError::FaultControlForbidden => "FAULT_CONTROL_FORBIDDEN"@,
            ApiError::Internal(_) => "INTERNAL_ERROR"@,
        },
        e.kind().title == match e {
            ApiError::InvalidIdempotencyKey(_) | ApiError::Validation(_) => "Validation Failed"@,
            ApiError::IdempotencyKeyReused => "Idempotency Key Reused"@,
            ApiError::OrderNotFound => "Order Not Found"@,
            ApiError::InjectedFault(_) => "Injected Fault"@,
            ApiError::PublishFailed(_) => "Event Publish Failed"@,
            ApiError::FaultControlForbidden => "Fault Control Forbidden"@,
            ApiError::Internal(_) => "Internal Error"@,
        },
{
}

/// The words for an error tell what it brings.
pub proof fn errors_tell_what_they_bring(e: ApiError)
    ensures
        e is InvalidIdempotencyKey ==> e.words() == "missing or invalid Idempotency-Key header"@,
        e is IdempotencyKeyReused ==> e.words()
            == "idempotency key reused with a different request body"@,
        e is OrderNotFound ==> e.words() == "order not found"@,
        e is FaultControlForbidden ==> e.words() == "missing or invalid X-Test-Token"@,
        e matches ApiError::Validation(refusal) ==> e.words() == refusal@.words(),
        e matches ApiError::InjectedFault(name) ==> e.words() == "injected fault fired: "@ + name@,
        e matches ApiError::PublishFailed(error) ==> e.words() == "failed to publish event: "@
            + error@,
        e matches ApiError::Internal(error) ==> e.words() == error@,
{
}

/// The response to an error bears its status twice, its code, its title and
/// its words, under the request that it answers.
pub proof fn responses_bear_the_error(e: &ApiError, request_id: u128, r: (u16, Problem))
    requires
        call_ensures(ApiError::parts, (e, request_id), r),
    ensures
        ({
            let (status, problem) = r;
            &&& status == problem.status == e.kind().status
            &&& problem.type_@ == "about:blank"@
            &&& problem.title@ == e.kind().title
            &&& problem.code@ == e.kind().code
            &&& problem.detail@ == e.words()
            &&& problem.request_id == request_id
        }),
{
}

/// A key that was reused is told as such, and what the storage said is told
/// as an internal error.
pub proof fn refused_creations_are_told(e: RepoError, r: ApiError)
    requires
        call_ensures(ApiError::from_repo, (e,), r),
    ensures
        e is IdempotencyKeyReused <==> r is IdempotencyKeyReused,
        e matches RepoError::Storage(detail) ==> r == ApiError::Internal(detail),
{
}

}
