//! The failures that the dispatch layer reports.

use vstd::prelude::*;

verus! {

/// Why a request could not be served.
#[derive(Debug)]
pub enum AppError {
    /// A credential that the request needs was never configured.
    ConfigurationError(String),
    /// The remote provider could not be reached, refused the call, or answered
    /// with something that cannot be read.
    ExternalServiceError(String),
    /// The request itself is not acceptable.
    ValidationError(String),
}

/// An [`AppError`] with its message as a sequence of characters.
pub ghost enum AppErrorView {
    ConfigurationError(Seq<char>),
    ExternalServiceError(Seq<char>),
    ValidationError(Seq<char>),
}

impl AppErrorView {
    /// The human-readable message that the error carries.
    pub open spec fn message(self) -> Seq<char> {
        match self {
            AppErrorView::ConfigurationError(m) => m,
            AppErrorView::ExternalServiceError(m) => m,
            AppErrorView::ValidationError(m) => m,
        }
    }
}

impl View for AppError {
    type V = AppErrorView;

    open spec fn view(&self) -> AppErrorView {
        match self {
            AppError::ConfigurationError(m) => AppErrorView::ConfigurationError(m@),
            AppError::ExternalServiceError(m) => AppErrorView::ExternalServiceError(m@),
            AppError::ValidationError(m) => AppErrorView::ValidationError(m@),
        }
    }
}

impl AppError {
    /// The human-readable message that the error carries.
    pub fn message(&self) -> (m: String)
        ensures
            m@ == self@.message(),
    {
        match self {
            AppError::ConfigurationError(m) => m.clone(),
            AppError::ExternalServiceError(m) => m.clone(),
            AppError::ValidationError(m) => m.clone(),
        }
    }
}

} // verus!
