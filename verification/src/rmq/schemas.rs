//! Exchanges and queues.

use crate::text::text_eq;
use vstd::prelude::*;

verus! {

/// How an exchange routes the messages it is given.
#[derive(Debug, Clone, Copy, PartialEq, Eq, Structural)]
pub enum ExchangeKind {
    Direct,
    Fanout,
    Topic,
}

/// The kind that a setting names: `direct`, `fanout`, or, for any other
/// word, topic.
pub open spec fn exchange_kind_of(exchange_type: Seq<char>) -> ExchangeKind {
    if exchange_type == "direct"@ {
        ExchangeKind::Direct
    } else if exchange_type == "fanout"@ {
        ExchangeKind::Fanout
    } else {
        ExchangeKind::Topic
    }
}

/// Reads the kind of exchange out of a setting.
pub fn exchange_kind(exchange_type: &str) -> (kind: ExchangeKind)
    ensures
        kind == exchange_kind_of(exchange_type@),
{
    if text_eq(exchange_type, "direct") {
        ExchangeKind::Direct
    } else if text_eq(exchange_type, "fanout") {
        ExchangeKind::Fanout
    } else {
        ExchangeKind::Topic
    }
}

/// An exchange: its name, the routing key under which the hub binds its
/// queue to it, and its kind.
#[derive(Debug)]
pub struct Exchange<'a> {
    pub name: &'a str,
    pub routing_key: &'a str,
    pub exchange_type: ExchangeKind,
}

impl<'a> Exchange<'a> {
    /// The exchange of the given name, with its kind read from a setting.
    pub fn new(name: &'a str, routing_key: &'a str, exchange_type: &str) -> (exchange: Self)
        ensures
            exchange.name@ == name@,
            exchange.routing_key@ == routing_key@,
            exchange.exchange_type == exchange_kind_of(exchange_type@),
    {
        let exchange_type = exchange_kind(exchange_type);
        Exchange { name, routing_key, exchange_type }
    }
}

/// A queue, by its name.
#[derive(Debug)]
pub struct Queue<'a> {
    pub name: &'a str,
}

impl<'a> Default for Queue<'a> {
    fn default() -> (queue: Self)
        ensures
            queue.name@ == Seq::<char>::empty(),
    {
        let name: &'a str = "";
        proof {
            reveal_strlit("");
        }
        assert(name@ =~= Seq::<char>::empty());
        Queue { name }
    }
}

} // verus!
