//! Failures reported to the host by the bridge's entry points.

use vstd::prelude::*;
use vstd::string::*;

verus! {

/// A failure of a host-facing operation, with a message for a human reader.
#[derive(Debug, Clone, PartialEq, Eq)]
pub enum FfiError {
    /// A failure outside the configuration: a bad address, a failed transfer.
    Common(String),
    /// The configuration cannot be used as given.
    Configuration(String),
}

/// The mathematical value of an [`FfiError`].
pub enum FfiErrorView {
    Common(Seq<char>),
    Configuration(Seq<char>),
}

impl View for FfiError {
    type V = FfiErrorView;

    open spec fn view(&self) -> FfiErrorView {
        match self {
            FfiError::Common(message) => FfiErrorView::Common(message@),
            FfiError::Configuration(message) => FfiErrorView::Configuration(message@),
        }
    }
}

impl FfiErrorView {
    /// The text shown for the failure: the message it carries.
    pub open spec fn message(self) -> Seq<char> {
        match self {
            FfiErrorView::Common(message) => message,
            FfiErrorView::Configuration(message) => message,
        }
    }
}

impl FfiError {
    /// The text shown for the failure.
    pub fn message(&self) -> (text: String)
        ensures
            text@ == self@.message(),
    {
        match self {
            FfiError::Common(message) => message.clone(),
            FfiError::Configuration(message) => message.clone(),
        }
    }
}

} // verus!
