//! Failures that are found on the host, before anything reaches the target.

use vstd::prelude::*;
use vstd::string::StringExecFns;

verus! {

/// Why a request was turned down before any interaction with the target.
#[derive(Debug, PartialEq, Eq)]
pub enum QspiError {
    /// The target's function table has no function of this name.
    FunctionNotFound(String),
    /// The function of this name takes another number of arguments than the
    /// action passes.
    SignatureMismatch(String),
    /// This field of a byte list is not an 8-bit unsigned number.
    InvalidByte(String),
    /// The action needs a flash address and none was given.
    MissingAddress,
    /// The action needs a byte count and none was given.
    MissingLength,
    /// The action writes and no byte was given.
    MissingBytes,
    /// No action was selected.
    NoOperation,
}

/// A `QspiError` with its texts as sequences of characters.
pub enum QspiErrorView {
    FunctionNotFound(Seq<char>),
    SignatureMismatch(Seq<char>),
    InvalidByte(Seq<char>),
    MissingAddress,
    MissingLength,
    MissingBytes,
    NoOperation,
}

impl View for QspiError {
    type V = QspiErrorView;

    open spec fn view(&self) -> QspiErrorView {
        match self {
            QspiError::FunctionNotFound(name) => QspiErrorView::FunctionNotFound(name@),
            QspiError::SignatureMismatch(name) => QspiErrorView::SignatureMismatch(name@),
            QspiError::InvalidByte(field) => QspiErrorView::InvalidByte(field@),
            QspiError::MissingAddress => QspiErrorView::MissingAddress,
            QspiError::MissingLength => QspiErrorView::MissingLength,
            QspiError::MissingBytes => QspiErrorView::MissingBytes,
            QspiError::NoOperation => QspiErrorView::NoOperation,
        }
    }
}

impl QspiErrorView {
    /// The line a user is shown for this error.
    pub open spec fn message(self) -> Seq<char> {
        match self {
            QspiErrorView::FunctionNotFound(name) => "did not find "@ + name + " function"@,
            QspiErrorView::SignatureMismatch(name) => "mismatched function signature on "@ + name,
            QspiErrorView::InvalidByte(field) => "invalid byte "@ + field,
            QspiErrorView::MissingAddress => "expected an address"@,
            QspiErrorView::MissingLength => "expected a byte count"@,
            QspiErrorView::MissingBytes => "expected bytes to write"@,
            QspiErrorView::NoOperation => "expected an operation"@,
        }
    }
}

impl QspiError {
    /// The line a user is shown for this error; it names the function or the
    /// field at fault.
    pub fn message(&self) -> (text: String)
        ensures
            text@ == self@.message(),
    {
        match self {
            QspiError::FunctionNotFound(name) => String::from_str("did not find ").concat(
                name.as_str(),
            ).concat(" function"),
            QspiError::SignatureMismatch(name) => String::from_str(
                "mismatched function signature on ",
            ).concat(name.as_str()),
            QspiError::InvalidByte(field) => String::from_str("invalid byte ").concat(
                field.as_str(),
            ),
            QspiError::MissingAddress => String::from_str("expected an address"),
            QspiError::MissingLength => String::from_str("expected a byte count"),
            QspiError::MissingBytes => String::from_str("expected bytes to write"),
            QspiError::NoOperation => String::from_str("expected an operation"),
        }
    }
}

} // verus!
