//! The mathematical model of a mediator: which handler answers each request
//! kind, and which handlers, in which order, observe each notification kind.

use crate::erased::ErasedHandler;
use crate::error::lemma_texts_differ;
use crate::error::DispatchError;
use std::any::TypeId;
use vstd::prelude::*;

verus! {

/// What a mediator holds, as two maps keyed by type identity.
pub struct Registrations {
    /// The one handler bound to each request kind.
    pub requests: Map<TypeId, ErasedHandler>,
    /// The handlers bound to each notification kind, oldest first.
    pub notifications: Map<TypeId, Seq<ErasedHandler>>,
}

impl Registrations {
    /// Nothing registered.
    pub open spec fn empty() -> Self {
        Registrations { requests: Map::empty(), notifications: Map::empty() }
    }

    /// The handler bound to the request kind `key`, if there is one.
    pub open spec fn responder(self, key: TypeId) -> Option<ErasedHandler> {
        if self.requests.contains_key(key) {
            Some(self.requests[key])
        } else {
            None
        }
    }

    /// The handlers bound to the notification kind `key`, oldest first; empty
    /// where none was ever registered.
    pub open spec fn subscribers(self, key: TypeId) -> Seq<ErasedHandler> {
        if self.notifications.contains_key(key) {
            self.notifications[key]
        } else {
            Seq::empty()
        }
    }

    /// The registrations after `handler` is bound to the request kind `key`,
    /// in place of whatever was bound to it.
    pub open spec fn with_responder(self, key: TypeId, handler: ErasedHandler) -> Self {
        Registrations {
            requests: self.requests.insert(key, handler),
            notifications: self.notifications,
        }
    }

    /// The registrations after `handler` is added behind the handlers of the
    /// notification kind `key`.
    pub open spec fn with_subscriber(self, key: TypeId, handler: ErasedHandler) -> Self {
        Registrations {
            requests: self.requests,
            notifications: self.notifications.insert(key, self.subscribers(key).push(handler)),
        }
    }
}

/// The error owed to a request whose kind has the identity `key`, should it
/// get no response: that of the mismatch where a handler is bound to `key`,
/// that of the missing handler where none is.
pub open spec fn error_owed(held: Registrations, key: TypeId) -> DispatchError {
    if held.responder(key) is Some {
        DispatchError::HandlerTypeMismatch
    } else {
        DispatchError::NoHandlerRegistered
    }
}

/// Whether `result` is what a request gets whose kind has the identity `key`:
/// a response only where a handler is bound to `key`, and else the text of the
/// error owed.
pub open spec fn request_outcome<Resp>(
    held: Registrations,
    key: TypeId,
    result: Result<Resp, String>,
) -> bool {
    match result {
        Ok(_) => held.responder(key) is Some,
        Err(text) => text@ == error_owed(held, key).text(),
    }
}

/// With nothing registered, no request kind has a responder and no
/// notification kind has a subscriber.
pub proof fn lemma_empty_holds_nothing(key: TypeId)
    ensures
        Registrations::empty().responder(key) is None,
        Registrations::empty().subscribers(key).len() == 0,
{
}

/// A request kind answers through the handler last bound to it; binding it
/// touches no other request kind and no notification kind.
pub proof fn lemma_responder_is_latest(
    before: Registrations,
    key: TypeId,
    handler: ErasedHandler,
    other: TypeId,
)
    ensures
        before.with_responder(key, handler).responder(key) == Some(handler),
        other != key ==> before.with_responder(key, handler).responder(other) == before.responder(
            other,
        ),
        before.with_responder(key, handler).subscribers(other) == before.subscribers(other),
{
}

/// A request of a kind that has no handler fails with the error of the
/// missing handler, and with no other.
pub proof fn lemma_unbound_kind_is_unhandled<Resp>(
    held: Registrations,
    key: TypeId,
    result: Result<Resp, String>,
)
    requires
        held.responder(key) is None,
        request_outcome(held, key, result),
    ensures
        result matches Err(text) && text@ == DispatchError::NoHandlerRegistered.text(),
{
}

/// Once a handler is bound to a request kind, a request of that kind gets a
/// response or the error of the mismatch, never the error of the missing
/// handler.
pub proof fn lemma_bound_kind_is_handled<Resp>(
    before: Registrations,
    key: TypeId,
    handler: ErasedHandler,
    result: Result<Resp, String>,
)
    requires
        request_outcome(before.with_responder(key, handler), key, result),
    ensures
        result matches Err(text) ==> text@ == DispatchError::HandlerTypeMismatch.text() && text@
            != DispatchError::NoHandlerRegistered.text(),
{
    lemma_texts_differ();
}

/// Binding a second handler to a request kind replaces the first: the
/// registrations are those in which the first was never bound.
pub proof fn lemma_rebinding_replaces(
    before: Registrations,
    key: TypeId,
    first: ErasedHandler,
    second: ErasedHandler,
)
    ensures
        before.with_responder(key, first).with_responder(key, second) == before.with_responder(
            key,
            second,
        ),
{
    assert(before.requests.insert(key, first).insert(key, second) =~= before.requests.insert(
        key,
        second,
    ));
}

/// A new subscriber stands behind all earlier ones of its notification kind,
/// which keep their order; other kinds and all request kinds are untouched.
pub proof fn lemma_subscribers_keep_order(
    before: Registrations,
    key: TypeId,
    handler: ErasedHandler,
    other: TypeId,
)
    ensures
        before.with_subscriber(key, handler).subscribers(key) == before.subscribers(key).push(
            handler,
        ),
        before.with_subscriber(key, handler).subscribers(key).len() == before.subscribers(
            key,
        ).len() + 1,
        forall|i: int|
            0 <= i < before.subscribers(key).len() ==> before.with_subscriber(
                key,
                handler,
            ).subscribers(key)[i] == #[trigger] before.subscribers(key)[i],
        other != key ==> before.with_subscriber(key, handler).subscribers(other)
            == before.subscribers(other),
        before.with_subscriber(key, handler).responder(other) == before.responder(other),
{
}

} // verus!
