//! The errors that an operation can end in, and how the failures of the
//! durable store are classified into them.

use vstd::prelude::*;
use vstd::std_specs::convert::FromSpecImpl;

verus! {

/// A failure reported by the durable store.
#[derive(Debug, Clone, PartialEq, Eq)]
pub enum StoreFailure {
    /// A row that had to be there was not.
    RowNotFound,
    /// Any other failure, with the store's own description.
    Other(String),
}

/// How an operation fails.
#[derive(Debug, Clone, PartialEq, Eq)]
pub enum ApiError {
    /// The input is malformed.
    Validation(String),
    /// The identifier is already taken.
    Conflict(String),
    /// No record: it never existed or was erased.
    NotFound,
    /// The record existed and its policy denied the read.
    Gone,
    /// A collaborator failed.
    Internal(String),
}

/// Mathematical value of a [`StoreFailure`].
pub enum StoreFailureView {
    RowNotFound,
    Other(Seq<char>),
}

/// Mathematical value of an [`ApiError`].
pub enum ApiErrorView {
    Validation(Seq<char>),
    Conflict(Seq<char>),
    NotFound,
    Gone,
    Internal(Seq<char>),
}

impl View for StoreFailure {
    type V = StoreFailureView;

    open spec fn view(&self) -> StoreFailureView {
        match self {
            StoreFailure::RowNotFound => StoreFailureView::RowNotFound,
            StoreFailure::Other(text) => StoreFailureView::Other(text@),
        }
    }
}

impl View for ApiError {
    type V = ApiErrorView;

    open spec fn view(&self) -> ApiErrorView {
        match self {
            ApiError::Validation(text) => ApiErrorView::Validation(text@),
            ApiError::Conflict(text) => ApiErrorView::Conflict(text@),
            ApiError::NotFound => ApiErrorView::NotFound,
            ApiError::Gone => ApiErrorView::Gone,
            ApiError::Internal(text) => ApiErrorView::Internal(text@),
        }
    }
}

/// Mathematical value of the end of an operation that yields a text.
pub open spec fn outcome_view(outcome: Result<String, ApiError>) -> Result<Seq<char>, ApiErrorView> {
    match outcome {
        Ok(text) => Ok(text@),
        Err(error) => Err(error@),
    }
}

/// The error that a store failure becomes: a missing row means that the
/// record is not there, and everything else is internal and keeps the
/// store's description.
pub open spec fn classify_store_failure(failure: StoreFailureView) -> ApiErrorView {
    match failure {
        StoreFailureView::RowNotFound => ApiErrorView::NotFound,
        StoreFailureView::Other(text) => ApiErrorView::Internal(text),
    }
}

/// The text that every internal failure is reported with.
pub open spec fn internal_detail_text() -> Seq<char> {
    "Internal Server Error"@
}

impl ApiErrorView {
    /// The status code that the error is reported with.
    pub open spec fn status(self) -> int {
        match self {
            ApiErrorView::Validation(_) => 400,
            ApiErrorView::Conflict(_) => 409,
            ApiErrorView::NotFound => 404,
            ApiErrorView::Gone => 410,
            ApiErrorView::Internal(_) => 500,
        }
    }

    /// The text that is put in the body of the error report. A malformed
    /// input and a conflict are reported with their message. A missing
    /// record, an expired one and an internal failure are reported with a
    /// fixed text each.
    pub open spec fn detail(self) -> Seq<char> {
        match self {
            ApiErrorView::Validation(text) => text,
            ApiErrorView::Conflict(text) => text,
            ApiErrorView::NotFound => "Not Found"@,
            ApiErrorView::Gone => "Link expired"@,
            ApiErrorView::Internal(_) => internal_detail_text(),
        }
    }

    /// The error written out for a log or a console.
    pub open spec fn message(self) -> Seq<char> {
        match self {
            ApiErrorView::Validation(text) => "Validation error: "@ + text,
            ApiErrorView::Conflict(text) => "Conflict: "@ + text,
            ApiErrorView::NotFound => "Not Found"@,
            ApiErrorView::Gone => "Expired or Deleted"@,
            ApiErrorView::Internal(text) => "Internal error: "@ + text,
        }
    }
}

impl From<StoreFailure> for ApiError {
    fn from(failure: StoreFailure) -> (error: ApiError)
        ensures
            error@ == classify_store_failure(failure@),
    {
        match failure {
            StoreFailure::RowNotFound => ApiError::NotFound,
            StoreFailure::Other(text) => ApiError::Internal(text),
        }
    }
}

impl FromSpecImpl<StoreFailure> for ApiError {
    open spec fn obeys_from_spec() -> bool {
        true
    }

    open spec fn from_spec(failure: StoreFailure) -> ApiError {
        match failure {
            StoreFailure::RowNotFound => ApiError::NotFound,
            StoreFailure::Other(text) => ApiError::Internal(text),
        }
    }
}

impl ApiError {
    /// The status code that the error is reported with: 400 for a malformed
    /// input, 409 for a taken identifier, 404 for a missing record, 410 for
    /// an expired one, and 500 for an internal failure.
    pub fn status(&self) -> (code: u16)
        ensures
            code == self@.status(),
    {
        match self {
            ApiError::Validation(_) => 400,
            ApiError::Conflict(_) => 409,
            ApiError::NotFound => 404,
            ApiError::Gone => 410,
            ApiError::Internal(_) => 500,
        }
    }

    /// The text that is put in the body of the error report. The reports of
    /// a missing and of an expired record carry fixed texts and nothing of
    /// the record. The report of an internal failure carries a fixed text
    /// and nothing of its cause, which is for the log alone.
    pub fn detail(&self) -> (text: String)
        ensures
            text@ == self@.detail(),
    {
        match self {
            ApiError::Validation(text) => text.clone(),
            ApiError::Conflict(text) => text.clone(),
            ApiError::NotFound => String::from_str("Not Found"),
            ApiError::Gone => String::from_str("Link expired"),
            ApiError::Internal(_) => String::from_str("Internal Server Error"),
        }
    }

    /// The error written out for a log or a console.
    pub fn message(&self) -> (text: String)
        ensures
            text@ == self@.message(),
    {
        match self {
            ApiError::Validation(text) => String::from_str("Validation error: ").concat(
                text.as_str(),
            ),
            ApiError::Conflict(text) => String::from_str("Conflict: ").concat(text.as_str()),
            ApiError::NotFound => String::from_str("Not Found"),
            ApiError::Gone => String::from_str("Expired or Deleted"),
            ApiError::Internal(text) => String::from_str("Internal error: ").concat(
                text.as_str(),
            ),
        }
    }
}

/// The report of an internal failure gives nothing away: its status and
/// its body are the same whatever the failure was, and so are those of a
/// missing and of an expired record.
pub proof fn lemma_internal_report_is_generic(cause: Seq<char>, other: Seq<char>)
    ensures
        ApiErrorView::Internal(cause).detail() == ApiErrorView::Internal(other).detail(),
        ApiErrorView::Internal(cause).detail() == internal_detail_text(),
        ApiErrorView::Internal(cause).status() == 500,
        ApiErrorView::NotFound.status() != ApiErrorView::Gone.status(),
{
}

} // verus!
