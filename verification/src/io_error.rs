//! Failures at the edge of the program: what kind they are and how they read.
use vstd::prelude::*;

verus! {

/// The kinds of failure that the program tells apart.
#[derive(Debug, Clone, Copy, PartialEq, Eq, Structural)]
pub enum IoErrorKind {
    /// A parameter was wrong.
    InvalidInput,
    /// Data that was read is not in the form it should have.
    InvalidData,
    /// Anything else.
    Other,
}

/// A failure at the edge of the program.
#[derive(Debug)]
pub struct IoError {
    pub kind: IoErrorKind,
    pub message: String,
}

/// An `IoError` with its message as a sequence of characters.
pub struct IoErrorView {
    pub kind: IoErrorKind,
    pub message: Seq<char>,
}

impl View for IoError {
    type V = IoErrorView;

    open spec fn view(&self) -> IoErrorView {
        IoErrorView { kind: self.kind, message: self.message@ }
    }
}

/// Data that was read is malformed, for this reason.
pub open spec fn malformed(message: Seq<char>) -> IoErrorView {
    IoErrorView { kind: IoErrorKind::InvalidData, message }
}

/// Reports malformed data.
pub fn invalid_data(message: String) -> (r: IoError)
    ensures
        r@ == malformed(message@),
{
    IoError { kind: IoErrorKind::InvalidData, message }
}

/// The outcome of an operation, with the error by its view.
pub open spec fn io_outcome<T>(r: Result<T, IoError>) -> Result<T, IoErrorView> {
    match r {
        Ok(v) => Ok(v),
        Err(e) => Err(e@),
    }
}

/// The outcome of an attempt, with its error as a sequence of characters.
pub open spec fn attempt<T>(r: Result<T, String>) -> Result<T, Seq<char>> {
    match r {
        Ok(v) => Ok(v),
        Err(e) => Err(e@),
    }
}

} // verus!
