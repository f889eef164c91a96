//! The mediator: registration and dispatch.

use crate::dispatch::deliver;
use crate::dispatch::lemma_served_at_most;
use crate::dispatch::Binding;
use crate::erased::kind_of;
use crate::erased::ErasedHandler;
use crate::error::DispatchError;
use crate::handler::Notification;
use crate::handler::NotificationHandler;
use crate::handler::Request;
use crate::handler::RequestHandler;
use crate::model::request_outcome;
use crate::model::Registrations;
use crate::table::Table;
use std::any::TypeId;
use vstd::prelude::*;

verus! {

/// Owns the registered handlers and routes requests and notifications to
/// them.
pub struct Mediator {
    request_handlers: Table<ErasedHandler>,
    notification_handlers: Table<Vec<ErasedHandler>>,
}

impl View for Mediator {
    type V = Registrations;

    closed spec fn view(&self) -> Registrations {
        Registrations {
            requests: self.request_handlers.entries(),
            notifications: self.notification_handlers.lists(),
        }
    }
}

impl Mediator {
    /// A mediator with nothing registered.
    pub fn new() -> (mediator: Mediator)
        ensures
            mediator@ == Registrations::empty(),
    {
        let mediator = Mediator { request_handlers: Table::new(), notification_handlers: Table::new() };
        proof {
            mediator.notification_handlers.lemma_lists_keys();
            assert(mediator@.notifications =~= Map::empty());
        }
        mediator
    }

    /// Binds `handler` to the request kind `key`, in place of whatever was
    /// bound to it.
    pub fn bind_request(&mut self, key: TypeId, handler: ErasedHandler)
        ensures
            final(self)@ == old(self)@.with_responder(key, handler),
    {
        self.request_handlers.put(key, handler);
    }

    /// Adds `handler` behind the handlers already bound to the notification
    /// kind `key`.
    pub fn subscribe(&mut self, key: TypeId, handler: ErasedHandler)
        ensures
            final(self)@ == old(self)@.with_subscriber(key, handler),
    {
        self.notification_handlers.append(key, handler);
    }

    /// The handler bound to the request kind `key`, if there is one.
    pub fn responder(&self, key: &TypeId) -> (handler: Option<&ErasedHandler>)
        ensures
            match handler {
                Some(bound) => self@.responder(*key) == Some(*bound),
                None => self@.responder(*key) is None,
            },
    {
        self.request_handlers.get(key)
    }

    /// The handlers bound to the notification kind `key`, oldest first; `None`
    /// where none was ever registered.
    pub fn subscribers(&self, key: &TypeId) -> (handlers: Option<&Vec<ErasedHandler>>)
        ensures
            match handlers {
                Some(list) => self@.notifications.contains_key(*key) && list@ == self@.subscribers(
                    *key,
                ),
                None => !self@.notifications.contains_key(*key),
            },
    {
        self.notification_handlers.list(key)
    }

    /// Registers `handler` as the one responder for requests of kind `R`, in
    /// place of any earlier one. The mediator owns it from here on.
    pub fn register_request<R, Resp, H>(&mut self, handler: H) where
        R: Request,
        Resp: 'static,
        H: RequestHandler<R, Resp> + 'static,

        ensures
            exists|key: TypeId, stored: ErasedHandler|
                final(self)@ == #[trigger] old(self)@.with_responder(key, stored),
    {
        let key = kind_of::<R>();
        let stored = ErasedHandler::for_request::<R, Resp, H>(handler);
        let ghost bound = stored;
        self.bind_request(key, stored);
        assert(self@ == old(self)@.with_responder(key, bound));
    }

    /// Registers `handler` as one more observer of notifications of kind `N`,
    /// behind those registered before. The mediator owns it from here on.
    pub fn register_notification<N, H>(&mut self, handler: H) where
        N: Notification + 'static,
        H: NotificationHandler<N> + 'static,

        ensures
            exists|key: TypeId, stored: ErasedHandler|
                final(self)@ == #[trigger] old(self)@.with_subscriber(key, stored),
    {
        let key = kind_of::<N>();
        let stored = ErasedHandler::for_notification::<N, H>(handler);
        let ghost added = stored;
        self.subscribe(key, stored);
        assert(self@ == old(self)@.with_subscriber(key, added));
    }

    /// Sends `request` to the handler registered for its kind and returns the
    /// response. Fails, calling nothing, where no handler is registered for
    /// the kind, or where the one registered does not give a `Resp`; the error
    /// is then reported by its text.
    pub fn send_request<R, Resp>(&self, request: R) -> (result: Result<Resp, String>) where
        R: Request,
        Resp: 'static,

        ensures
            exists|key: TypeId| #[trigger] request_outcome(self@, key, result),
            (forall|key: TypeId| self@.responder(key) is None) ==> (result matches Err(text)
                && text@ == DispatchError::NoHandlerRegistered.text()),
    {
        let key = kind_of::<R>();
        let result = match Binding::of(self.responder(&key)).answer(request) {
            Ok(response) => Ok(response),
            Err(error) => Err(error.message()),
        };
        assert(request_outcome(self@, key, result));
        result
    }

    /// The handlers bound to the notification kind `key`, oldest first, each
    /// seen as one that consumes an `N`: `None` stands for one that does not.
    pub fn recipients<N>(&self, key: &TypeId) -> (found: Vec<
        Option<&Box<dyn NotificationHandler<N>>>,
    >) where N: Notification
        ensures
            found@.len() == self@.subscribers(*key).len(),
    {
        let mut found: Vec<Option<&Box<dyn NotificationHandler<N>>>> = Vec::new();
        let handlers = match self.subscribers(key) {
            Some(list) => list,
            None => {
                return found;
            },
        };
        let mut i: usize = 0;
        while i < handlers.len()
            invariant
                i <= handlers@.len(),
                found@.len() == i,
            decreases handlers@.len() - i,
        {
            found.push(handlers[i].as_notification_handler::<N>());
            i += 1;
        }
        found
    }

    /// Hands a duplicate of `notification` to each handler bound to the
    /// notification kind `key` that consumes an `N`, oldest first, and returns
    /// how many there were.
    pub fn publish<N>(&self, key: &TypeId, notification: N) -> (delivered: usize) where
        N: Notification + Clone,

        ensures
            delivered <= self@.subscribers(*key).len(),
            self@.subscribers(*key).len() == 0 ==> delivered == 0,
    {
        let recipients = self.recipients::<N>(key);
        proof {
            lemma_served_at_most(recipients@);
        }
        deliver(&recipients, &notification)
    }

    /// Hands a duplicate of `notification` to each handler registered for its
    /// kind, in the order of registration. With none registered it does
    /// nothing.
    pub fn send_notification<N>(&self, notification: N) where N: Notification + Clone
    {
        let key = kind_of::<N>();
        let recipients = self.recipients::<N>(&key);
        deliver(&recipients, &notification);
    }
}

} // verus!
