//! The pieces from which the handlers are made: the entry check that a client
//! request must pass, and the messages that the hub sends on its own account.

use crate::configs::Config;
use crate::errors::{CustomProjectErrors, ErrorView};
use crate::mapping::schemas::{
    ApplicationView, BaseRequest, BaseRequestView, ByPassRequest, MappedError, MappedErrorView,
    Request, RequestView, RmqTargetView, ServiceResponse, ServiceResponseView,
};
use crate::tasks::producer::methods::send_message_to_client;
use crate::tasks::protocol::{
    decoded_view, MessageProperties, MessagePropertiesView, Payload, PayloadView, Publish,
    PublishView, ReplyRoute, ReplyRouteView, Stamp, StampView,
};
use crate::text::{join, join_text};
use vstd::prelude::*;

verus! {

/// A refusal: the notice that tells the caller, and the error with which the
/// handler ends.
#[derive(Debug, PartialEq)]
pub struct Rejection {
    pub notice: Publish,
    pub error: CustomProjectErrors,
}

/// What is wrong with a client request: the schema's complaint if it could
/// not be decoded, else the rules that its application breaks.
pub open spec fn intake_problems(
    request: Result<BaseRequestView, Seq<char>>,
    config: Config,
) -> Seq<Seq<char>> {
    match request {
        Ok(body) => body.application.problems(config.services(), config.systems()),
        Err(complaint) => seq![complaint],
    }
}

/// Whether a client request passes the entry check: it could be decoded and
/// its application breaks no rule.
pub open spec fn passes_intake(
    request: Result<BaseRequestView, Seq<char>>,
    config: Config,
) -> bool {
    request matches Ok(body) && body.application.valid(config.services(), config.systems())
}

impl ServiceResponseView {
    /// The answer that refuses a client request before it has been taken in.
    /// It is filed under the stamp's fresh id.
    pub open spec fn refusal(
        application: ApplicationView,
        target: RmqTargetView,
        problems: Seq<Seq<char>>,
        stamp: StampView,
    ) -> ServiceResponseView {
        ServiceResponseView {
            application_id: application.application_id,
            serhub_request_id: stamp.request_id,
            service_id: application.service_id,
            system_id: application.system_id,
            is_cache: false,
            status: "RequestValidationError"@,
            status_description: problems,
            response_created_time: stamp.time_text,
            response: None,
            target,
        }
    }

    /// The answer that the hub gives when the service has not answered in
    /// time.
    pub open spec fn timeout(request: RequestView, created: Seq<char>) -> ServiceResponseView {
        ServiceResponseView::answer_to(
            request,
            Some(false),
            "ServiceTimeout"@,
            seq!["service_timeout"@],
            created,
        )
    }

    /// The answer that the hub gives when the broker did not take the
    /// request for its service.
    pub open spec fn publish_error(
        request: RequestView,
        error_message: Seq<char>,
        created: Seq<char>,
    ) -> ServiceResponseView {
        ServiceResponseView::answer_to(
            request,
            Some(false),
            "RMQPublishError"@,
            seq![error_message],
            created,
        )
    }
}

impl PublishView {
    /// The copy of `request` that comes back to the hub once the service's
    /// time is over.
    pub open spec fn delayed(
        request: RequestView,
        correlation_id: Seq<char>,
        reply_to: Seq<char>,
        config: Config,
    ) -> PublishView {
        PublishView {
            exchange: config.rmq_delayed_exchange@,
            routing_key: config.rmq_timeout_queue@,
            payload: PayloadView::Request(request),
            properties: MessagePropertiesView {
                delay: Some((request.service_info.service_timeout * 1000) as u32),
                ..MessagePropertiesView::json(reply_to, correlation_id)
            },
            expected_exchange: None,
        }
    }

    /// The message that files the timeout of `request` as a failure.
    pub open spec fn timeout_failure(
        request: RequestView,
        route: ReplyRouteView,
        config: Config,
    ) -> PublishView {
        PublishView {
            exchange: config.rmq_exchange@,
            routing_key: config.rmq_fail_table_queue@,
            payload: PayloadView::Failure(
                MappedErrorView::failure_of(request, "ServiceTimeout"@, "Service"@),
            ),
            properties: MessagePropertiesView::json(route.reply_to, route.correlation_id),
            expected_exchange: None,
        }
    }
}

/// The entry check for client requests. `by_pass` is the least that could be read
/// of the message, `request` the whole of it or the schema's complaint.
pub fn get_request(
    by_pass: ByPassRequest,
    request: Result<BaseRequest, String>,
    route: &ReplyRoute,
    stamp: Stamp,
    config: &Config,
) -> (outcome: Result<BaseRequest, Rejection>)
    requires
        config.wf(),
    ensures
        outcome is Ok <==> passes_intake(decoded_view(request), *config),
        outcome matches Ok(body) ==> request == Ok::<BaseRequest, String>(body),
        outcome matches Err(rejection) ==> {
            let problems = intake_problems(decoded_view(request), *config);
            &&& rejection.notice@ == PublishView::to_client(
                ServiceResponseView::refusal(
                    by_pass.application@,
                    by_pass.target@,
                    problems,
                    stamp@,
                ),
                route.reply_to@,
                route.correlation_id@,
            )
            &&& rejection.error@ == ErrorView::ValidationError(
                "BaseRequest"@,
                join(problems, "\n"@),
            )
        },
{
    let status_description: Vec<String> = match request {
        Ok(body) => match body.application.validate(config) {
            Ok(()) => {
                return Ok(body);
            },
            Err(lines) => lines,
        },
        Err(complaint) => {
            let mut lines: Vec<String> = Vec::new();
            lines.push(complaint);
            assert(lines.deep_view() =~= seq![complaint@]);
            lines
        },
    };
    let error_message = join_text(&status_description, "\n");
    let service_response = ServiceResponse {
        application_id: by_pass.application.application_id,
        serhub_request_id: stamp.request_id,
        service_id: by_pass.application.service_id,
        system_id: by_pass.application.system_id,
        is_cache: false,
        status: "RequestValidationError".to_owned(),
        status_description,
        response_created_time: stamp.time_text,
        response: None,
        target: by_pass.target,
    };
    let notice = send_message_to_client(
        &service_response,
        route.reply_to.clone(),
        route.correlation_id.clone(),
    );
    Err(
        Rejection {
            notice,
            error: CustomProjectErrors::ValidationError("BaseRequest".to_owned(), error_message),
        },
    )
}

/// The message that files the timeout of `request` as a failure.
pub fn send_timeout_error_message(
    request: &Request,
    route: &ReplyRoute,
    config: &Config,
) -> (publish: Publish)
    ensures
        publish@ == PublishView::timeout_failure(request@, route@, *config),
{
    let error_response = MappedError::generate_error_response(
        request,
        "ServiceTimeout".to_owned(),
        "Service".to_owned(),
    );
    Publish {
        exchange: config.rmq_exchange.clone(),
        routing_key: config.rmq_fail_table_queue.clone(),
        payload: Payload::Failure(error_response),
        properties: MessageProperties::json(route.reply_to.clone(), route.correlation_id.clone()),
        expected_exchange: None,
    }
}

/// The message that tells the caller of `request` that its service has not
/// answered in time.
pub fn send_timeout_error_service(
    request: &Request,
    route: &ReplyRoute,
    created: String,
) -> (publish: Publish)
    ensures
        publish@ == PublishView::to_client(
            ServiceResponseView::timeout(request@, created@),
            route.reply_to@,
            route.correlation_id@,
        ),
{
    let mut status_description: Vec<String> = Vec::new();
    status_description.push("service_timeout".to_owned());
    assert(status_description.deep_view() =~= seq!["service_timeout"@]);
    let service_response = ServiceResponse::generate_response_at(
        request,
        Some(false),
        "ServiceTimeout".to_owned(),
        status_description,
        created,
    );
    send_message_to_client(&service_response, route.reply_to.clone(), route.correlation_id.clone())
}

/// The copy of `request` that comes back to the hub once the service's time
/// is over.
pub fn send_delayed_message(
    request: &Request,
    correlation_id: String,
    reply_to: String,
    config: &Config,
) -> (publish: Publish)
    ensures
        publish@ == PublishView::delayed(request@, correlation_id@, reply_to@, *config),
{
    let timeout: u32 = request.service_info.service_timeout as u32 * 1000;
    let mut properties = MessageProperties::json(reply_to, correlation_id);
    properties.delay = Some(timeout);
    Publish {
        exchange: config.rmq_delayed_exchange.clone(),
        routing_key: config.rmq_timeout_queue.clone(),
        payload: Payload::Request(request.clone()),
        properties,
        expected_exchange: None,
    }
}

/// The message that tells the caller of `request` that the broker did not
/// take the request for its service.
pub fn send_publish_error_message(
    request: &Request,
    error_message: &str,
    route: &ReplyRoute,
    created: String,
) -> (publish: Publish)
    ensures
        publish@ == PublishView::to_client(
            ServiceResponseView::publish_error(request@, error_message@, created@),
            route.reply_to@,
            route.correlation_id@,
        ),
{
    let mut status_description: Vec<String> = Vec::new();
    status_description.push(error_message.to_owned());
    assert(status_description.deep_view() =~= seq![error_message@]);
    let service_error_response = ServiceResponse::generate_response_at(
        request,
        Some(false),
        "RMQPublishError".to_owned(),
        status_description,
        created,
    );
    send_message_to_client(
        &service_error_response,
        route.reply_to.clone(),
        route.correlation_id.clone(),
    )
}

} // verus!
