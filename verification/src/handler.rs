//! The capabilities that an embedding application supplies.

use vstd::prelude::*;

verus! {

/// Marks a type whose values can be sent as requests: one question with one
/// responder.
pub trait Request: 'static {

}

/// Marks a type whose values can be sent as notifications, to any number of
/// observers.
pub trait Notification: 'static {

}

/// Produces one response of kind `Resp` from one request of kind `R`.
pub trait RequestHandler<R: Request, Resp>: 'static {
    /// The responses that this handler may give to `request`. A handler that
    /// says nothing of itself may give any.
    open spec fn answers(&self, request: R, response: Resp) -> bool {
        true
    }

    /// Answers `request`.
    fn handle(&self, request: R) -> (response: Resp)
        ensures
            self.answers(request, response),
    ;
}

/// Consumes one notification of kind `N` and returns nothing.
pub trait NotificationHandler<N: Notification>: 'static {
    /// Reacts to `notification`.
    fn handle(&self, notification: N);
}

} // verus!
