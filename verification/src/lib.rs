//! An in-process mediator: one handler per request kind, any number of
//! handlers per notification kind, all kept in one registry keyed by the
//! kind's type identity.

pub mod dispatch;
pub mod erased;
pub mod error;
pub mod handler;
pub mod mediator;
pub mod model;
pub mod table;

pub use dispatch::deliver;
pub use dispatch::notify;
pub use dispatch::Binding;
pub use erased::ErasedHandler;
pub use error::DispatchError;
pub use handler::Notification;
pub use handler::NotificationHandler;
pub use handler::Request;
pub use handler::RequestHandler;
pub use mediator::Mediator;
