//! Why a request got no response.

use vstd::prelude::*;

verus! {

/// The two ways in which sending a request fails. Both are reported to the
/// caller; neither is a crash.
#[derive(Debug, Clone, Copy, PartialEq, Eq, Structural)]
pub enum DispatchError {
    /// No handler is registered for the request's kind.
    NoHandlerRegistered,
    /// A handler is registered for the request's kind, but with another
    /// response type than the one asked for.
    HandlerTypeMismatch,
}

impl DispatchError {
    /// The text that reports this error.
    pub open spec fn text(self) -> Seq<char> {
        match self {
            DispatchError::NoHandlerRegistered => "No handler registered for request."@,
            DispatchError::HandlerTypeMismatch => "Handler found, but type mismatch occurred."@,
        }
    }

    /// The text that reports this error.
    pub fn message(&self) -> (text: String)
        ensures
            text@ == self.text(),
    {
        match self {
            DispatchError::NoHandlerRegistered => "No handler registered for request.".to_string(),
            DispatchError::HandlerTypeMismatch => "Handler found, but type mismatch occurred.".to_string(),
        }
    }
}

/// The two errors have different texts, so a text tells which error it
/// reports.
pub proof fn lemma_texts_differ()
    ensures
        DispatchError::NoHandlerRegistered.text() != DispatchError::HandlerTypeMismatch.text(),
{
    reveal_strlit("No handler registered for request.");
    reveal_strlit("Handler found, but type mismatch occurred.");
    assert(DispatchError::NoHandlerRegistered.text().len()
        != DispatchError::HandlerTypeMismatch.text().len());
}

} // verus!
