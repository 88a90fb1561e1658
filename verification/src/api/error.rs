//! Faults as callers see them.

use vstd::prelude::*;
use vstd::string::*;

verus! {

/// Why a request was not served.
#[derive(Debug)]
pub enum AppError {
    /// What was asked for does not exist; holds the fault in words.
    NotFound(String),
    /// What was sent cannot be used; holds the fault in words.
    BadRequest(String),
}

/// An `AppError` with its text as a sequence of characters.
pub enum AppErrorView {
    NotFound(Seq<char>),
    BadRequest(Seq<char>),
}

impl View for AppError {
    type V = AppErrorView;

    open spec fn view(&self) -> AppErrorView {
        match self {
            AppError::NotFound(what) => AppErrorView::NotFound(what@),
            AppError::BadRequest(what) => AppErrorView::BadRequest(what@),
        }
    }
}

impl AppError {
    /// The HTTP status that tells the fault: 404 for what does not exist, 400
    /// for what cannot be used.
    pub fn status(&self) -> (code: u16)
        ensures
            code == match self {
                AppError::NotFound(_) => 404u16,
                AppError::BadRequest(_) => 400u16,
            },
    {
        match self {
            AppError::NotFound(_) => 404,
            AppError::BadRequest(_) => 400,
        }
    }

    /// The fault in words.
    pub fn message(&self) -> (text: String)
        ensures
            text@ == match self {
                AppError::NotFound(what) => what@,
                AppError::BadRequest(what) => what@,
            },
    {
        match self {
            AppError::NotFound(what) => what.clone(),
            AppError::BadRequest(what) => what.clone(),
        }
    }
}

} // verus!
