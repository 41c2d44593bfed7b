//! The service registry.

use vstd::prelude::*;

verus! {

/// One row of the service registry: where requests for a service go, how its
/// answers may be cached, and how long it is given to answer.
#[derive(Debug, PartialEq)]
pub struct Services {
    pub id: i32,
    pub name: String,
    pub exchange: String,
    pub queue: String,
    pub routing_key: String,
    /// Comma-separated names of the request fields that key the cache.
    pub cache_fields: String,
    pub cache_expiration: Option<String>,
    /// Seconds the service is given to answer.
    pub timeout: i32,
}

/// A registry row, as the contracts speak of it.
pub struct ServicesView {
    pub id: i32,
    pub name: Seq<char>,
    pub exchange: Seq<char>,
    pub queue: Seq<char>,
    pub routing_key: Seq<char>,
    pub cache_fields: Seq<char>,
    pub cache_expiration: Option<Seq<char>>,
    pub timeout: i32,
}

impl View for Services {
    type V = ServicesView;

    open spec fn view(&self) -> ServicesView {
        ServicesView {
            id: self.id,
            name: self.name@,
            exchange: self.exchange@,
            queue: self.queue@,
            routing_key: self.routing_key@,
            cache_fields: self.cache_fields@,
            cache_expiration: self.cache_expiration.deep_view(),
            timeout: self.timeout,
        }
    }
}

} // verus!
