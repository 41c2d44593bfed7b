//! The vocabulary in which the handlers talk to the code that drives them.
//!
//! A handler never touches the broker or the store. It hands out one
//! `Command` at a time; the driver performs it and comes back with the
//! `Answer`.

use crate::database::models::services::{Services, ServicesView};
use crate::mapping::schemas::{
    MappedError, MappedErrorView, Request, RequestView, ServiceResponse, ServiceResponseView,
};
use crate::outside::{fresh_uuid_text, local_now, uuid_value};
use crate::rmq::schemas::ExchangeKind;
use vstd::prelude::*;

verus! {

/// What was read out of a message's bytes, or the schema's complaint, as the
/// contracts speak of it.
pub open spec fn decoded_view<T: View>(decoded: Result<T, String>) -> Result<T::V, Seq<char>> {
    match decoded {
        Ok(value) => Ok(value@),
        Err(complaint) => Err(complaint@),
    }
}

/// The command that a handler hands out, if any, as the contracts speak of
/// it.
pub open spec fn command_view(command: Option<Command>) -> Option<CommandView> {
    match command {
        Some(command) => Some(command@),
        None => None,
    }
}

/// The reply coordinates that came with an incoming message. They travel
/// with every message that the hub sends in consequence.
#[derive(Debug, PartialEq)]
pub struct ReplyRoute {
    pub reply_to: String,
    pub correlation_id: String,
}

/// Reply coordinates, as the contracts speak of it.
pub struct ReplyRouteView {
    pub reply_to: Seq<char>,
    pub correlation_id: Seq<char>,
}

impl View for ReplyRoute {
    type V = ReplyRouteView;

    open spec fn view(&self) -> ReplyRouteView {
        ReplyRouteView { reply_to: self.reply_to@, correlation_id: self.correlation_id@ }
    }
}

impl Clone for ReplyRoute {
    fn clone(&self) -> (copy: Self)
        ensures
            copy@ == self@,
    {
        ReplyRoute {
            reply_to: self.reply_to.clone(),
            correlation_id: self.correlation_id.clone(),
        }
    }
}

/// What a handler takes from the world around it at one step: the time, and
/// an id that nobody has used before.
#[derive(Debug, PartialEq)]
pub struct Stamp {
    /// Seconds since the Unix epoch.
    pub now: i64,
    /// The date and time, for a person to read.
    pub time_text: String,
    pub request_id: String,
}

/// A stamp, as the contracts speak of it.
pub struct StampView {
    pub now: i64,
    pub time_text: Seq<char>,
    pub request_id: Seq<char>,
}

impl View for Stamp {
    type V = StampView;

    open spec fn view(&self) -> StampView {
        StampView { now: self.now, time_text: self.time_text@, request_id: self.request_id@ }
    }
}

impl Stamp {
    /// Reads the clock and draws a fresh id.
    pub fn take() -> (stamp: Self)
        ensures
            uuid_value(stamp.request_id@) is Some,
    {
        let (now, time_text) = local_now();
        Stamp { now, time_text, request_id: fresh_uuid_text() }
    }
}

/// The broker properties of an outgoing message.
#[derive(Debug, PartialEq)]
pub struct MessageProperties {
    pub content_type: String,
    pub correlation_id: String,
    pub reply_to: String,
    /// Milliseconds for which the broker keeps the message, in decimal.
    pub expiration: Option<String>,
    pub app_id: Option<String>,
    /// Milliseconds for which a delayed exchange holds the message back.
    pub delay: Option<u32>,
}

/// Message properties, as the contracts speak of it.
pub struct MessagePropertiesView {
    pub content_type: Seq<char>,
    pub correlation_id: Seq<char>,
    pub reply_to: Seq<char>,
    pub expiration: Option<Seq<char>>,
    pub app_id: Option<Seq<char>>,
    pub delay: Option<u32>,
}

impl View for MessageProperties {
    type V = MessagePropertiesView;

    open spec fn view(&self) -> MessagePropertiesView {
        MessagePropertiesView {
            content_type: self.content_type@,
            correlation_id: self.correlation_id@,
            reply_to: self.reply_to@,
            expiration: self.expiration.deep_view(),
            app_id: self.app_id.deep_view(),
            delay: self.delay,
        }
    }
}

impl MessagePropertiesView {
    /// The properties of a JSON message that carries the given reply
    /// coordinates and nothing more.
    pub open spec fn json(reply_to: Seq<char>, correlation_id: Seq<char>) -> MessagePropertiesView {
        MessagePropertiesView {
            content_type: "application/json"@,
            correlation_id,
            reply_to,
            expiration: None,
            app_id: None,
            delay: None,
        }
    }
}

impl MessageProperties {
    /// The properties of a JSON message that carries the given reply
    /// coordinates and nothing more.
    pub fn json(reply_to: String, correlation_id: String) -> (properties: Self)
        ensures
            properties@ == MessagePropertiesView::json(reply_to@, correlation_id@),
    {
        MessageProperties {
            content_type: "application/json".to_owned(),
            correlation_id,
            reply_to,
            expiration: None,
            app_id: None,
            delay: None,
        }
    }
}

/// What an outgoing message says.
#[derive(Debug, PartialEq)]
pub enum Payload {
    Request(Request),
    Response(ServiceResponse),
    Failure(MappedError),
}

/// What a message says, as the contracts speak of it.
pub enum PayloadView {
    Request(RequestView),
    Response(ServiceResponseView),
    Failure(MappedErrorView),
}

impl View for Payload {
    type V = PayloadView;

    open spec fn view(&self) -> PayloadView {
        match self {
            Payload::Request(request) => PayloadView::Request(request@),
            Payload::Response(response) => PayloadView::Response(response@),
            Payload::Failure(record) => PayloadView::Failure(record@),
        }
    }
}

/// One message for the broker: where it goes, what it says, and the
/// properties it carries.
#[derive(Debug, PartialEq)]
pub struct Publish {
    pub exchange: String,
    pub routing_key: String,
    pub payload: Payload,
    pub properties: MessageProperties,
    /// Set where the exchange must be known to exist, with the kind it is
    /// expected to have, before the message is sent.
    pub expected_exchange: Option<ExchangeKind>,
}

/// A message for the broker, as the contracts speak of it.
pub struct PublishView {
    pub exchange: Seq<char>,
    pub routing_key: Seq<char>,
    pub payload: PayloadView,
    pub properties: MessagePropertiesView,
    pub expected_exchange: Option<ExchangeKind>,
}

impl View for Publish {
    type V = PublishView;

    open spec fn view(&self) -> PublishView {
        PublishView {
            exchange: self.exchange@,
            routing_key: self.routing_key@,
            payload: self.payload@,
            properties: self.properties@,
            expected_exchange: self.expected_exchange,
        }
    }
}

/// One thing that a handler asks its driver to do.
#[derive(Debug, PartialEq)]
pub enum Command {
    /// Look the service up in the registry.
    FindService(i32),
    /// Say whether the response store holds a row for this request id.
    CheckResponse(String),
    /// Record the request. Nothing depends on the outcome.
    SaveRequest(Request),
    /// Insert the response into the response store, unless the store
    /// already holds a row for its request.
    SaveResponse(ServiceResponse),
    /// Insert a placeholder for the request into the response store, unless
    /// the store already holds a row for it.
    SaveTimeout(Request),
    /// Record the failure. Nothing depends on the outcome.
    SaveFailure(MappedError),
    /// Hand the message to the broker.
    Publish(Publish),
}

/// A command, as the contracts speak of it.
pub enum CommandView {
    FindService(i32),
    CheckResponse(Seq<char>),
    SaveRequest(RequestView),
    SaveResponse(ServiceResponseView),
    SaveTimeout(RequestView),
    SaveFailure(MappedErrorView),
    Publish(PublishView),
}

impl View for Command {
    type V = CommandView;

    open spec fn view(&self) -> CommandView {
        match self {
            Command::FindService(id) => CommandView::FindService(*id),
            Command::CheckResponse(id) => CommandView::CheckResponse(id@),
            Command::SaveRequest(request) => CommandView::SaveRequest(request@),
            Command::SaveResponse(response) => CommandView::SaveResponse(response@),
            Command::SaveTimeout(request) => CommandView::SaveTimeout(request@),
            Command::SaveFailure(record) => CommandView::SaveFailure(record@),
            Command::Publish(publish) => CommandView::Publish(publish@),
        }
    }
}

/// How a command went.
#[derive(Debug, PartialEq)]
pub enum Answer {
    /// The registry's row, or why there is none.
    Service(Result<Services, String>),
    /// Whether the response store holds a row.
    Exists(bool),
    /// Whether the row was inserted.
    Saved(bool),
    /// Whether the broker took the message, or why not.
    Published(Result<(), String>),
}

/// An answer, as the contracts speak of it.
pub enum AnswerView {
    Service(Result<ServicesView, Seq<char>>),
    Exists(bool),
    Saved(bool),
    Published(Result<(), Seq<char>>),
}

impl View for Answer {
    type V = AnswerView;

    open spec fn view(&self) -> AnswerView {
        match self {
            Answer::Service(Ok(service)) => AnswerView::Service(Ok(service@)),
            Answer::Service(Err(reason)) => AnswerView::Service(Err(reason@)),
            Answer::Exists(exists) => AnswerView::Exists(*exists),
            Answer::Saved(saved) => AnswerView::Saved(*saved),
            Answer::Published(Ok(())) => AnswerView::Published(Ok(())),
            Answer::Published(Err(reason)) => AnswerView::Published(Err(reason@)),
        }
    }
}

} // verus!
