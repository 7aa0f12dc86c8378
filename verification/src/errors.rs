//! The error type shared by every component of this crate.

use vstd::prelude::*;

verus! {

/// Spec-level image of a `StratisError`: the same four kinds, with the
/// message as a sequence of characters.
pub enum ErrorView {
    /// No database entry for a device node, or a required binary is absent.
    NotFound(Seq<char>),
    /// A supplied path is not a block device.
    Invalid(Seq<char>),
    /// A failure opening or querying a device node, or spawning a process.
    Io(Seq<char>),
    /// An external tool exited non-zero; carries its captured output.
    CommandFailed(Seq<char>),
}

/// An error produced by device resolution, classification, binary lookup
/// or command interpretation. Every variant carries a human-readable message.
#[derive(Debug)]
pub enum StratisError {
    /// No database entry for a device node, or a required binary is absent.
    NotFound(String),
    /// A supplied path is not a block device.
    Invalid(String),
    /// A failure opening or querying a device node, or spawning a process.
    Io(String),
    /// An external tool exited non-zero; carries its captured output.
    CommandFailed(String),
}

impl View for StratisError {
    type V = ErrorView;

    open spec fn view(&self) -> ErrorView {
        match self {
            StratisError::NotFound(m) => ErrorView::NotFound(m@),
            StratisError::Invalid(m) => ErrorView::Invalid(m@),
            StratisError::Io(m) => ErrorView::Io(m@),
            StratisError::CommandFailed(m) => ErrorView::CommandFailed(m@),
        }
    }
}

impl StratisError {
    /// The message carried by the error, whatever its kind.
    pub fn message(&self) -> (r: &String)
        ensures
            r@ == self.spec_message(),
    {
        match self {
            StratisError::NotFound(m) => m,
            StratisError::Invalid(m) => m,
            StratisError::Io(m) => m,
            StratisError::CommandFailed(m) => m,
        }
    }

    /// The message of the spec-level image of this error.
    pub open spec fn spec_message(&self) -> Seq<char> {
        match self@ {
            ErrorView::NotFound(m) => m,
            ErrorView::Invalid(m) => m,
            ErrorView::Io(m) => m,
            ErrorView::CommandFailed(m) => m,
        }
    }
}

} // verus!
