//! The errors of the inventory API.

use vstd::prelude::*;

use crate::domain_common::is_version_7;
use crate::ids::fresh_id;
use crate::text::join;

verus! {

/// The body of an error response.
#[derive(Debug)]
pub struct Problem {
    pub type_: &'static str,
    pub title: &'static str,
    pub status: u16,
    pub code: &'static str,
    pub detail: String,
    pub request_id: u128,
}

/// Why a request fails.
#[derive(Debug)]
pub enum ApiError {
    StockNotFound(String),
    FaultControlForbidden,
    Internal(String),
}

impl ApiError {
    /// The status of the response.
    pub open spec fn status(self) -> u16 {
        match self {
            ApiError::StockNotFound(_) => 404,
            ApiError::FaultControlForbidden => 403,
            ApiError::Internal(_) => 500,
        }
    }

    /// The code of the error.
    pub open spec fn code(self) -> Seq<char> {
        match self {
            ApiError::StockNotFound(_) => "STOCK_NOT_FOUND"@,
            ApiError::FaultControlForbidden => "FAULT_CONTROL_FORBIDDEN"@,
            ApiError::Internal(_) => "INTERNAL_ERROR"@,
        }
    }

    /// The title of the error.
    pub open spec fn title(self) -> Seq<char> {
        match self {
            ApiError::StockNotFound(_) => "Stock Not Found"@,
            ApiError::FaultControlForbidden => "Fault Control Forbidden"@,
            ApiError::Internal(_) => "Internal Error"@,
        }
    }

    /// The error in words.
    pub open spec fn words(self) -> Seq<char> {
        match self {
            ApiError::StockNotFound(sku) => "stock not found for sku "@ + sku@,
            ApiError::FaultControlForbidden => "missing or invalid X-Test-Token"@,
            ApiError::Internal(error) => error@,
        }
    }

    /// The error in words.
    pub fn message(&self) -> (r: String)
        ensures
            r@ == self.words(),
    {
        match self {
            ApiError::StockNotFound(sku) => join("stock not found for sku ", sku.as_str()),
            ApiError::FaultControlForbidden => "missing or invalid X-Test-Token".to_owned(),
            ApiError::Internal(error) => error.clone(),
        }
    }

    /// The status and the body of the response to the error.
    pub fn parts(&self, request_id: u128) -> (r: (u16, Problem))
        ensures
            r.0 == self.status(),
            r.1.type_@ == "about:blank"@,
            r.1.title@ == self.title(),
            r.1.status == self.status(),
            r.1.code@ == self.code(),
            r.1.detail@ == self.words(),
            r.1.request_id == request_id,
    {
        let (status, code, title): (u16, &'static str, &'static str) = match self {
            ApiError::StockNotFound(_) => (404, "STOCK_NOT_FOUND", "Stock Not Found"),
            ApiError::FaultControlForbidden => (
                403,
                "FAULT_CONTROL_FORBIDDEN",
                "Fault Control Forbidden",
            ),
            ApiError::Internal(_) => (500, "INTERNAL_ERROR", "Internal Error"),
        };
        (
            status,
            Problem {
                type_: "about:blank",
                title,
                status,
                code,
                detail: self.message(),
                request_id,
            },
        )
    }

    /// The response to the error, under a fresh request identifier.
    pub fn response(&self) -> (r: (u16, Problem))
        ensures
            r.0 == self.status(),
            r.1.type_@ == "about:blank"@,
            r.1.title@ == self.title(),
            r.1.status == self.status(),
            r.1.code@ == self.code(),
            r.1.detail@ == self.words(),
            is_version_7(r.1.request_id),
    {
        self.parts(fresh_id())
    }
}

/// Every error is answered under its own status, code and title, in words
/// that tell what it brings.
pub proof fn errors_are_answered_by_their_kind(e: ApiError)
    ensures
        e matches ApiError::StockNotFound(sku) ==> e.status() == 404 && e.code()
            == "STOCK_NOT_FOUND"@ && e.title() == "Stock Not Found"@ && e.words()
            == "stock not found for sku "@ + sku@,
        e is FaultControlForbidden ==> e.status() == 403 && e.code() == "FAULT_CONTROL_FORBIDDEN"@
            && e.title() == "Fault Control Forbidden"@ && e.words()
            == "missing or invalid X-Test-Token"@,
        e matches ApiError::Internal(error) ==> e.status() == 500 && e.code() == "INTERNAL_ERROR"@
            && e.title() == "Internal Error"@ && e.words() == error@,
{
}

}
