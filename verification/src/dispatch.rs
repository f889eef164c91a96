//! From a stored handler back to a typed one, and from there to an answer.

use crate::erased::erase;
use crate::erased::recover;
use crate::erased::ErasedHandler;
use crate::error::DispatchError;
use crate::handler::Notification;
use crate::handler::NotificationHandler;
use crate::handler::Request;
use crate::handler::RequestHandler;
use vstd::prelude::*;

verus! {

impl ErasedHandler {
    /// Forgets the type of a request handler, so that it can be stored.
    pub fn for_request<R: Request, Resp: 'static, H: RequestHandler<R, Resp>>(handler: H) -> Self {
        let boxed: Box<dyn RequestHandler<R, Resp>> = Box::new(handler);
        erase(boxed)
    }

    /// Forgets the type of a notification handler, so that it can be stored.
    pub fn for_notification<N: Notification, H: NotificationHandler<N>>(handler: H) -> Self {
        let boxed: Box<dyn NotificationHandler<N>> = Box::new(handler);
        erase(boxed)
    }

    /// The handler as one that answers requests of kind `R` with responses of
    /// kind `Resp`, or `None` if it was stored as anything else.
    pub fn as_request_handler<R: Request, Resp: 'static>(&self) -> Option<
        &Box<dyn RequestHandler<R, Resp>>,
    > {
        recover(self)
    }

    /// The handler as one that consumes notifications of kind `N`, or `None`
    /// if it was stored as anything else.
    pub fn as_notification_handler<N: Notification>(&self) -> Option<
        &Box<dyn NotificationHandler<N>>,
    > {
        recover(self)
    }
}

/// What a lookup for a request of kind `R`, with a response of kind `Resp`
/// expected, has found.
#[verifier::reject_recursive_types(R)]
#[verifier::reject_recursive_types(Resp)]
pub enum Binding<'a, R: Request, Resp: 'static> {
    /// Nothing is bound to the request kind.
    Unbound,
    /// A handler is bound to the request kind, but not one that gives a
    /// `Resp`.
    Incompatible,
    /// The handler that is bound to the request kind.
    Bound(&'a Box<dyn RequestHandler<R, Resp>>),
}

impl<'a, R: Request, Resp: 'static> Binding<'a, R, Resp> {
    /// What a table entry for the request kind amounts to: `entry` is the
    /// stored handler, if any.
    pub fn of(entry: Option<&'a ErasedHandler>) -> (binding: Self)
        ensures
            binding is Unbound <==> entry is None,
    {
        match entry {
            None => Binding::Unbound,
            Some(stored) => match stored.as_request_handler::<R, Resp>() {
                None => Binding::Incompatible,
                Some(handler) => Binding::Bound(handler),
            },
        }
    }

    /// Whether `result` is what this binding owes to `request`: the response
    /// of the handler found, or else the error that says why none was found.
    pub open spec fn owes(self, request: R, result: Result<Resp, DispatchError>) -> bool {
        match self {
            Binding::Unbound => result == Err::<Resp, DispatchError>(
                DispatchError::NoHandlerRegistered,
            ),
            Binding::Incompatible => result == Err::<Resp, DispatchError>(
                DispatchError::HandlerTypeMismatch,
            ),
            Binding::Bound(handler) => result matches Ok(response) && handler.answers(
                request,
                response,
            ),
        }
    }

    /// Sends `request` to the handler found, once, and returns its response;
    /// where none was found, returns the error that says why and calls
    /// nothing.
    pub fn answer(self, request: R) -> (result: Result<Resp, DispatchError>)
        ensures
            self.owes(request, result),
    {
        match self {
            Binding::Unbound => Err(DispatchError::NoHandlerRegistered),
            Binding::Incompatible => Err(DispatchError::HandlerTypeMismatch),
            Binding::Bound(handler) => Ok(handler.handle(request)),
        }
    }
}

/// Hands a duplicate of `notification` to `recipient`, once, and says that
/// it did; with no recipient it calls nothing and says so.
pub fn notify<N: Notification + Clone>(
    recipient: Option<&Box<dyn NotificationHandler<N>>>,
    notification: &N,
) -> (delivered: bool)
    ensures
        delivered == recipient is Some,
{
    match recipient {
        Some(handler) => {
            handler.handle(notification.clone());
            true
        },
        None => false,
    }
}

/// How many of `recipients` are there to be served.
pub open spec fn served<N: Notification>(
    recipients: Seq<Option<&Box<dyn NotificationHandler<N>>>>,
) -> nat
    decreases recipients.len(),
{
    if recipients.len() == 0 {
        0
    } else {
        served(recipients.drop_last()) + if recipients.last() is Some {
            1nat
        } else {
            0nat
        }
    }
}

/// No more recipients are served than there are places in the list.
pub proof fn lemma_served_at_most<N: Notification>(
    recipients: Seq<Option<&Box<dyn NotificationHandler<N>>>>,
)
    ensures
        served(recipients) <= recipients.len(),
    decreases recipients.len(),
{
    if recipients.len() > 0 {
        lemma_served_at_most(recipients.drop_last());
    }
}

/// Hands a duplicate of `notification` to each of `recipients` that is there,
/// from the first to the last, once each, and returns how many were served.
pub fn deliver<N: Notification + Clone>(
    recipients: &Vec<Option<&Box<dyn NotificationHandler<N>>>>,
    notification: &N,
) -> (delivered: usize)
    ensures
        delivered == served(recipients@),
{
    let mut delivered: usize = 0;
    let mut i: usize = 0;
    while i < recipients.len()
        invariant
            delivered <= i <= recipients@.len(),
            delivered == served(recipients@.take(i as int)),
        decreases recipients@.len() - i,
    {
        proof {
            assert(recipients@.take(i + 1).drop_last() =~= recipients@.take(i as int));
        }
        if notify(recipients[i], notification) {
            delivered += 1;
        }
        i += 1;
    }
    proof {
        assert(recipients@.take(i as int) =~= recipients@);
    }
    delivered
}

} // verus!
