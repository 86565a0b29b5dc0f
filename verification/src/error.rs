//! The error that a plugin hands to its host.

use vstd::prelude::*;

verus! {

/// Why a plugin could not do what it was asked.
#[derive(Debug, Clone, PartialEq, Eq)]
pub enum PluginError {
    /// Trying again will not help.
    Permanent(String),
    /// Trying again may help.
    Transient(String),
}

/// A [`PluginError`] with its message as a character sequence.
pub enum ErrorView {
    Permanent(Seq<char>),
    Transient(Seq<char>),
}

impl View for PluginError {
    type V = ErrorView;

    open spec fn view(&self) -> ErrorView {
        match self {
            PluginError::Permanent(m) => ErrorView::Permanent(m@),
            PluginError::Transient(m) => ErrorView::Transient(m@),
        }
    }
}

impl PluginError {
    /// The message of the error.
    pub fn message(&self) -> (r: &str)
        ensures
            r@ == self@.text(),
    {
        match self {
            PluginError::Permanent(m) => m.as_str(),
            PluginError::Transient(m) => m.as_str(),
        }
    }

    /// Another error with the same message.
    pub fn duplicate(&self) -> (r: PluginError)
        ensures
            r@ == self@,
    {
        match self {
            PluginError::Permanent(m) => PluginError::Permanent(m.clone()),
            PluginError::Transient(m) => PluginError::Transient(m.clone()),
        }
    }
}

impl ErrorView {
    /// The message of the error.
    pub open spec fn text(self) -> Seq<char> {
        match self {
            ErrorView::Permanent(m) => m,
            ErrorView::Transient(m) => m,
        }
    }
}

/// A permanent error with the given message.
pub fn permanent(message: &str) -> (r: PluginError)
    ensures
        r@ == ErrorView::Permanent(message@),
{
    PluginError::Permanent(message.to_owned())
}

/// A transient error with the given message.
pub fn transient(message: &str) -> (r: PluginError)
    ensures
        r@ == ErrorView::Transient(message@),
{
    PluginError::Transient(message.to_owned())
}

} // verus!
