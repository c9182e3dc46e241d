//! Errors of the ConnMan binding.

use vstd::prelude::*;
use vstd::string::*;

verus! {

/// What went wrong in reading or driving ConnMan. Every variant carries the
/// detail in words.
#[derive(Debug, Clone, PartialEq, Eq)]
pub enum ConnManError {
    MissingProperty(String),
    InvalidProperty(String),
    InvalidAddress(String),
    OperationFailed(String),
    NotFound(String),
}

/// What an error holds.
pub enum ConnManErrorView {
    MissingProperty(Seq<char>),
    InvalidProperty(Seq<char>),
    InvalidAddress(Seq<char>),
    OperationFailed(Seq<char>),
    NotFound(Seq<char>),
}

impl View for ConnManError {
    type V = ConnManErrorView;

    open spec fn view(&self) -> ConnManErrorView {
        match self {
            ConnManError::MissingProperty(detail) => ConnManErrorView::MissingProperty(detail@),
            ConnManError::InvalidProperty(detail) => ConnManErrorView::InvalidProperty(detail@),
            ConnManError::InvalidAddress(detail) => ConnManErrorView::InvalidAddress(detail@),
            ConnManError::OperationFailed(detail) => ConnManErrorView::OperationFailed(detail@),
            ConnManError::NotFound(detail) => ConnManErrorView::NotFound(detail@),
        }
    }
}

impl ConnManErrorView {
    /// The message of the error: its kind, then the detail.
    pub open spec fn message(self) -> Seq<char> {
        match self {
            ConnManErrorView::MissingProperty(detail) => "Missing property: "@ + detail,
            ConnManErrorView::InvalidProperty(detail) => "Invalid property: "@ + detail,
            ConnManErrorView::InvalidAddress(detail) => "Invalid address: "@ + detail,
            ConnManErrorView::OperationFailed(detail) => "Operation failed: "@ + detail,
            ConnManErrorView::NotFound(detail) => "Not found: "@ + detail,
        }
    }
}

impl ConnManError {
    pub fn to_string(&self) -> (s: String)
        ensures
            s@ == self@.message(),
    {
        let (mut s, detail) = match self {
            ConnManError::MissingProperty(detail) => ("Missing property: ".to_owned(), detail),
            ConnManError::InvalidProperty(detail) => ("Invalid property: ".to_owned(), detail),
            ConnManError::InvalidAddress(detail) => ("Invalid address: ".to_owned(), detail),
            ConnManError::OperationFailed(detail) => ("Operation failed: ".to_owned(), detail),
            ConnManError::NotFound(detail) => ("Not found: ".to_owned(), detail),
        };
        s.append(detail.as_str());
        s
    }
}

} // verus!
