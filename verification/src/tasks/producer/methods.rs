//! The messages that the hub sends to services and to clients.

use crate::configs::Config;
use crate::mapping::schemas::{Request, RequestView, ServiceResponse, ServiceResponseView};
use crate::outside::local_now;
use crate::rmq::schemas::{exchange_kind, exchange_kind_of, Exchange};
use crate::tasks::protocol::{
    MessageProperties, MessagePropertiesView, Payload, PayloadView, Publish, PublishView,
};
use crate::text::{decimal, to_decimal};
use vstd::prelude::*;

verus! {

/// For how many milliseconds the broker should keep a request that was taken
/// in at `received` and whose service has `timeout` seconds to answer, when
/// it is sent at `now`: the time that is left, and nothing once it is over.
pub open spec fn expiration_millis(received: i64, timeout: u16, now: i64) -> nat {
    let left = received + timeout - now;
    if left > 0 {
        (left * 1000) as nat
    } else {
        0
    }
}

/// Computes the expiration of a request that is sent at `now`.
pub fn compute_expiration(received: i64, timeout: u16, now: i64) -> (millis: u128)
    ensures
        millis == expiration_millis(received, timeout, now),
{
    let left: i128 = received as i128 + timeout as i128 - now as i128;
    if left > 0 {
        (left as u128) * 1000
    } else {
        0
    }
}

impl PublishView {
    /// The message that carries `request` to its service at `now`.
    pub open spec fn to_service(
        request: RequestView,
        reply_to: Seq<char>,
        correlation_id: Seq<char>,
        exchange_type: Seq<char>,
        now: i64,
    ) -> PublishView {
        PublishView {
            exchange: request.service_info.exchange,
            routing_key: request.service_info.routing_key,
            payload: PayloadView::Request(request),
            properties: MessagePropertiesView {
                expiration: Some(
                    decimal(
                        expiration_millis(
                            request.service_info.timestamp_received,
                            request.service_info.service_timeout,
                            now,
                        ),
                    ),
                ),
                ..MessagePropertiesView::json(reply_to, correlation_id)
            },
            expected_exchange: Some(exchange_kind_of(exchange_type)),
        }
    }

    /// The message that carries `response` to the place its caller named.
    /// The broker keeps it for a minute.
    pub open spec fn to_client(
        response: ServiceResponseView,
        reply_to: Seq<char>,
        correlation_id: Seq<char>,
    ) -> PublishView {
        PublishView {
            exchange: response.target.exchange,
            routing_key: response.target.routing_key,
            payload: PayloadView::Response(response),
            properties: MessagePropertiesView {
                expiration: Some(decimal(60000)),
                app_id: Some(response.application_id),
                ..MessagePropertiesView::json(reply_to, correlation_id)
            },
            expected_exchange: None,
        }
    }
}

/// The message that carries `request` to its service when it is sent at
/// `now`.
pub fn send_message_to_service_at(
    request: &Request,
    reply_to: String,
    correlation_id: String,
    config: &Config,
    now: i64,
) -> (publish: Publish)
    ensures
        publish@ == PublishView::to_service(
            request@,
            reply_to@,
            correlation_id@,
            config.rmq_exchange_type@,
            now,
        ),
{
    let service_info = &request.service_info;
    let expiration = compute_expiration(
        service_info.timestamp_received,
        service_info.service_timeout,
        now,
    );
    let mut properties = MessageProperties::json(reply_to, correlation_id);
    properties.expiration = Some(to_decimal(expiration));
    Publish {
        exchange: service_info.exchange.clone(),
        routing_key: service_info.routing_key.clone(),
        payload: Payload::Request(request.clone()),
        properties,
        expected_exchange: Some(exchange_kind(config.rmq_exchange_type.as_str())),
    }
}

/// The message that carries `request` to its service when it is sent right
/// away.
pub fn send_message_to_service(
    request: &Request,
    reply_to: String,
    correlation_id: String,
    config: &Config,
) -> (publish: Publish)
    ensures
        exists|now: i64|
            publish@ == PublishView::to_service(
                request@,
                reply_to@,
                correlation_id@,
                config.rmq_exchange_type@,
                now,
            ),
{
    let (now, _) = local_now();
    send_message_to_service_at(request, reply_to, correlation_id, config, now)
}

/// The message that carries `service_response` to the place its caller
/// named.
pub fn send_message_to_client(
    service_response: &ServiceResponse,
    reply_to: String,
    correlation_id: String,
) -> (publish: Publish)
    ensures
        publish@ == PublishView::to_client(service_response@, reply_to@, correlation_id@),
{
    let target_info = &service_response.target;
    let mut properties = MessageProperties::json(reply_to, correlation_id);
    properties.expiration = Some(to_decimal(60 * 1000));
    properties.app_id = Some(service_response.application_id.clone());
    Publish {
        exchange: target_info.exchange.clone(),
        routing_key: target_info.routing_key.clone(),
        payload: Payload::Response(service_response.clone()),
        properties,
        expected_exchange: None,
    }
}

/// A message to `exchange` under `routing_key`, as it is given.
pub fn send_message(
    payload: Payload,
    exchange: &Exchange<'_>,
    routing_key: &str,
    properties: MessageProperties,
) -> (publish: Publish)
    ensures
        publish@ == (PublishView {
            exchange: exchange.name@,
            routing_key: routing_key@,
            payload: payload@,
            properties: properties@,
            expected_exchange: None,
        }),
{
    Publish {
        exchange: exchange.name.to_owned(),
        routing_key: routing_key.to_owned(),
        payload,
        properties,
        expected_exchange: None,
    }
}

} // verus!
