//! Routing core of a message hub that sits between client applications and
//! backend services.
//!
//! A client publishes a request that names a service. The hub checks it,
//! completes it with what the service registry says, sends it on to the
//! service, and relays the service's response to the place the client named.
//! A delayed copy of every request comes back to the hub when the service's
//! time is over; if no response has been stored by then, the hub answers the
//! client itself. The response store takes one row per request, so the client
//! never hears from both.
//!
//! The handlers in `tasks` decide; they never touch the broker or the store.
//! They hand out commands and take answers, and say in their contracts what
//! they hand out for which answer.

pub mod configs;
pub mod database;
pub mod errors;
pub mod mapping;
pub mod outside;
pub mod prelude;
pub mod rmq;
pub mod tasks;
pub mod text;

pub use prelude::{
    Application, BaseRequest, BaseService, ByPassRequest, CustomProjectErrors, Exchange,
    IncomingServiceInfo, MappedError, Queue, Request, RmqTarget, ServiceInfo, ServiceResponse,
};
