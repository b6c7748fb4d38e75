//! The three-kind error vocabulary shared by every component.
//!
//! No component hands its caller anything richer than these three kinds.
//! What a client is told depends on the kind and, for the two kinds that a
//! client can act on, on the message; the cause of an internal error is for
//! the log only.

use vstd::prelude::*;
use crate::text::{concat, text};

verus! {

/// A failure as seen across component boundaries.
#[derive(Debug)]
pub enum AppError {
    /// The caller can fix the request; the message is shown to them.
    BadRequest(String),
    /// A named resource does not exist downstream; the message is shown.
    NotFound(String),
    /// Anything else. The cause is kept for the log and never shown.
    Internal(String),
}

/// Mathematical model of an [`AppError`].
pub enum AppErrorView {
    BadRequest(Seq<char>),
    NotFound(Seq<char>),
    Internal(Seq<char>),
}

impl DeepView for AppError {
    type V = AppErrorView;

    open spec fn deep_view(&self) -> AppErrorView {
        match self {
            AppError::BadRequest(m) => AppErrorView::BadRequest(m@),
            AppError::NotFound(m) => AppErrorView::NotFound(m@),
            AppError::Internal(m) => AppErrorView::Internal(m@),
        }
    }
}

pub type AppResult<T> = Result<T, AppError>;

/// Model of a result: the model of the value, or of the error.
pub open spec fn outcome_view<T: DeepView>(r: AppResult<T>) -> Result<T::V, AppErrorView> {
    match r {
        Ok(v) => Ok(v.deep_view()),
        Err(e) => Err(e.deep_view()),
    }
}

/// HTTP status that the surface answers with for each kind of error.
pub open spec fn status_of(e: AppErrorView) -> u16 {
    match e {
        AppErrorView::BadRequest(_) => 400,
        AppErrorView::NotFound(_) => 404,
        AppErrorView::Internal(_) => 500,
    }
}

/// One line that names the kind of an error, and its message where the
/// message is meant to be seen.
pub open spec fn description_of(e: AppErrorView) -> Seq<char> {
    match e {
        AppErrorView::BadRequest(m) => "Bad Request: "@ + m,
        AppErrorView::NotFound(m) => "Not Found: "@ + m,
        AppErrorView::Internal(_) => "Internal Error"@,
    }
}

impl AppError {
    /// The HTTP status for this error.
    pub fn status(&self) -> (code: u16)
        ensures
            code == status_of(self.deep_view()),
    {
        match self {
            AppError::BadRequest(_) => 400,
            AppError::NotFound(_) => 404,
            AppError::Internal(_) => 500,
        }
    }

    /// The error in one line. The cause of an internal error is left out.
    pub fn describe(&self) -> (line: String)
        ensures
            line@ == description_of(self.deep_view()),
    {
        match self {
            AppError::BadRequest(m) => concat("Bad Request: ", m.as_str()),
            AppError::NotFound(m) => concat("Not Found: ", m.as_str()),
            AppError::Internal(_) => text("Internal Error"),
        }
    }
}

} // verus!
