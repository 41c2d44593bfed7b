//! The four handlers: client requests, service responses, failure records,
//! and timeouts.
//!
//! A handler is a small machine. The function named after it takes the
//! message that arrived and gives the first `Flow` with the first `Command`;
//! `resume` takes the `Answer` to that command and gives the next. The
//! handler is over when the flow is `Done`, and it never asks for anything
//! after that.

use crate::configs::Config;
use crate::database::models::services::{Services, ServicesView};
use crate::errors::{CustomProjectErrors, ErrorView};
use crate::mapping::schemas::{
    BaseRequest, BaseRequestView, ByPassRequest, ByPassRequestView, IncomingServiceInfo,
    IncomingServiceInfoView, MappedError, MappedErrorView, Request, RequestView, ServiceInfo,
    ServiceInfoView, ServiceResponse, ServiceResponseView,
};
use crate::tasks::consumer::utils::{
    get_request, intake_problems, passes_intake, send_delayed_message, send_publish_error_message,
    send_timeout_error_message, send_timeout_error_service,
};
use crate::tasks::producer::methods::{send_message_to_client, send_message_to_service_at};
use crate::tasks::protocol::{
    command_view, decoded_view, Answer, AnswerView, Command, CommandView, PublishView, ReplyRoute,
    ReplyRouteView, Stamp, StampView,
};
use crate::text::{join, join_text};
use vstd::prelude::*;

verus! {

/// Where a handler stands.
#[derive(Debug, PartialEq)]
#[allow(inconsistent_fields)]
pub enum Flow {
    /// A client request has passed the entry check; the registry is being asked
    /// for its service.
    FindingService { request: BaseRequest, route: ReplyRoute },
    /// The request is complete and is being recorded.
    SavingRequest { request: Request, route: ReplyRoute },
    /// The request is on its way to the service.
    SendingToService { request: Request, route: ReplyRoute },
    /// The broker did not take the request; the failed dispatch is being
    /// recorded.
    RecordingFailedDispatch { request: Request, route: ReplyRoute, reason: String },
    /// The caller is being told that nothing will come of the request.
    Rejecting { error: CustomProjectErrors },
    /// A service response is being inserted into the response store.
    SavingResponse { response: ServiceResponse, route: ReplyRoute },
    /// A timeout has fired; the response store is being asked whether the
    /// request has been answered.
    CheckingResponse { request: Request, route: ReplyRoute },
    /// The timeout is claiming the request.
    Claiming { request: Request, route: ReplyRoute, existing: bool },
    /// The timeout has won; the failure record is on its way.
    ReportingTimeout { request: Request, route: ReplyRoute },
    /// The last message is on its way, and the handler ends as that ends.
    Finishing,
    /// The last command is out, and the handler ends well however it goes.
    Closing,
    /// The handler is over.
    Done(Result<(), CustomProjectErrors>),
}

/// Where a handler stands, as the contracts speak of it.
#[allow(inconsistent_fields)]
pub enum FlowView {
    FindingService { request: BaseRequestView, route: ReplyRouteView },
    SavingRequest { request: RequestView, route: ReplyRouteView },
    SendingToService { request: RequestView, route: ReplyRouteView },
    RecordingFailedDispatch { request: RequestView, route: ReplyRouteView, reason: Seq<char> },
    Rejecting { error: ErrorView },
    SavingResponse { response: ServiceResponseView, route: ReplyRouteView },
    CheckingResponse { request: RequestView, route: ReplyRouteView },
    Claiming { request: RequestView, route: ReplyRouteView, existing: bool },
    ReportingTimeout { request: RequestView, route: ReplyRouteView },
    Finishing,
    Closing,
    Done(Result<(), ErrorView>),
}

impl View for Flow {
    type V = FlowView;

    open spec fn view(&self) -> FlowView {
        match self {
            Flow::FindingService { request, route } => FlowView::FindingService {
                request: request@,
                route: route@,
            },
            Flow::SavingRequest { request, route } => FlowView::SavingRequest {
                request: request@,
                route: route@,
            },
            Flow::SendingToService { request, route } => FlowView::SendingToService {
                request: request@,
                route: route@,
            },
            Flow::RecordingFailedDispatch { request, route, reason } => {
                FlowView::RecordingFailedDispatch {
                    request: request@,
                    route: route@,
                    reason: reason@,
                }
            },
            Flow::Rejecting { error } => FlowView::Rejecting { error: error@ },
            Flow::SavingResponse { response, route } => FlowView::SavingResponse {
                response: response@,
                route: route@,
            },
            Flow::CheckingResponse { request, route } => FlowView::CheckingResponse {
                request: request@,
                route: route@,
            },
            Flow::Claiming { request, route, existing } => FlowView::Claiming {
                request: request@,
                route: route@,
                existing: *existing,
            },
            Flow::ReportingTimeout { request, route } => FlowView::ReportingTimeout {
                request: request@,
                route: route@,
            },
            Flow::Finishing => FlowView::Finishing,
            Flow::Closing => FlowView::Closing,
            Flow::Done(Ok(())) => FlowView::Done(Ok(())),
            Flow::Done(Err(error)) => FlowView::Done(Err(error@)),
        }
    }
}

/// A handler that is over because of `error`.
pub open spec fn failed(error: ErrorView) -> (FlowView, Option<CommandView>) {
    (FlowView::Done(Err(error)), None)
}

/// A handler that is over and has done its work.
pub open spec fn finished() -> (FlowView, Option<CommandView>) {
    (FlowView::Done(Ok(())), None)
}

impl FlowView {
    /// Whether the handler is over.
    pub open spec fn done(self) -> bool {
        self is Done
    }

    /// How the handling of a client request begins. A message of which not
    /// even the caller can be read ends the handler. A request that does not
    /// pass the entry check is refused: the caller is told, and nothing else
    /// happens. For any other, the registry is asked for the service.
    pub open spec fn client(
        by_pass: Result<ByPassRequestView, Seq<char>>,
        request: Result<BaseRequestView, Seq<char>>,
        route: ReplyRouteView,
        stamp: StampView,
        config: Config,
    ) -> (FlowView, Option<CommandView>) {
        match by_pass {
            Err(complaint) => failed(
                ErrorView::IncomingSerializingMessageError(complaint),
            ),
            Ok(by_pass) => if passes_intake(request, config) {
                (
                    FlowView::FindingService { request: request->Ok_0, route },
                    Some(CommandView::FindService(request->Ok_0.application.service_id)),
                )
            } else {
                let problems = intake_problems(request, config);
                (
                    FlowView::Rejecting {
                        error: ErrorView::ValidationError(
                            "BaseRequest"@,
                            join(problems, "\n"@),
                        ),
                    },
                    Some(
                        CommandView::Publish(
                            PublishView::to_client(
                                ServiceResponseView::refusal(
                                    by_pass.application,
                                    by_pass.target,
                                    problems,
                                    stamp,
                                ),
                                route.reply_to,
                                route.correlation_id,
                            ),
                        ),
                    ),
                )
            },
        }
    }

    /// How the handling of a service response begins: the response is
    /// inserted into the response store.
    pub open spec fn service(
        response: Result<ServiceResponseView, Seq<char>>,
        route: ReplyRouteView,
    ) -> (FlowView, Option<CommandView>) {
        match response {
            Err(complaint) => failed(
                ErrorView::IncomingSerializingMessageError(complaint),
            ),
            Ok(response) => (
                FlowView::SavingResponse { response, route },
                Some(CommandView::SaveResponse(response)),
            ),
        }
    }

    /// How the handling of a failure record begins: the record is saved.
    pub open spec fn failure(record: Result<MappedErrorView, Seq<char>>) -> (
        FlowView,
        Option<CommandView>,
    ) {
        match record {
            Err(complaint) => failed(
                ErrorView::IncomingSerializingMessageError(complaint),
            ),
            Ok(record) => (FlowView::Closing, Some(CommandView::SaveFailure(record))),
        }
    }

    /// How the handling of a timeout begins: the response store is asked
    /// whether the request has been answered.
    pub open spec fn timeout(request: Result<RequestView, Seq<char>>, route: ReplyRouteView) -> (
        FlowView,
        Option<CommandView>,
    ) {
        match request {
            Err(complaint) => failed(
                ErrorView::IncomingSerializingMessageError(complaint),
            ),
            Ok(request) => (
                FlowView::CheckingResponse { request, route },
                Some(CommandView::CheckResponse(request.service_info.serhub_request_id)),
            ),
        }
    }

    /// What the registry's answer makes of a client request: with a service
    /// that says where requests go, the complete request, which is recorded
    /// next; else a refusal.
    pub open spec fn enrich(
        request: BaseRequestView,
        route: ReplyRouteView,
        service: ServicesView,
        stamp: StampView,
    ) -> (FlowView, Option<CommandView>) {
        let info = ServiceInfoView::of_incoming(
            IncomingServiceInfoView::of_service(service, stamp.now, stamp.request_id),
        );
        let enriched = RequestView::of(request, info);
        if info.valid() {
            (
                FlowView::SavingRequest { request: enriched, route },
                Some(CommandView::SaveRequest(enriched)),
            )
        } else {
            (
                FlowView::Rejecting {
                    error: ErrorView::ValidationError(
                        "ServiceInfo"@,
                        join(info.problems(), "\n"@),
                    ),
                },
                Some(
                    CommandView::Publish(
                        PublishView::to_client(
                            ServiceResponseView::answer_to(
                                enriched,
                                Some(false),
                                "RequestValidationError"@,
                                info.problems(),
                                stamp.time_text,
                            ),
                            route.reply_to,
                            route.correlation_id,
                        ),
                    ),
                ),
            )
        }
    }

    /// How the handler goes on when `answer` comes back. An answer of the
    /// wrong sort ends it with `Unknown`.
    pub open spec fn step(self, answer: AnswerView, stamp: StampView, config: Config) -> (
        FlowView,
        Option<CommandView>,
    ) {
        match self {
            FlowView::FindingService { request, route } => match answer {
                AnswerView::Service(Ok(service)) => FlowView::enrich(
                    request,
                    route,
                    service,
                    stamp,
                ),
                AnswerView::Service(Err(reason)) => failed(
                    ErrorView::DatabaseOperationError(reason),
                ),
                _ => failed(ErrorView::Unknown),
            },
            FlowView::SavingRequest { request, route } => (
                FlowView::SendingToService { request, route },
                Some(
                    CommandView::Publish(
                        PublishView::to_service(
                            request,
                            route.reply_to,
                            route.correlation_id,
                            config.rmq_exchange_type@,
                            stamp.now,
                        ),
                    ),
                ),
            ),
            FlowView::SendingToService { request, route } => match answer {
                AnswerView::Published(Ok(())) => (
                    FlowView::Closing,
                    Some(
                        CommandView::Publish(
                            PublishView::delayed(
                                request,
                                route.correlation_id,
                                route.reply_to,
                                config,
                            ),
                        ),
                    ),
                ),
                AnswerView::Published(Err(reason)) => (
                    FlowView::RecordingFailedDispatch { request, route, reason },
                    Some(CommandView::SaveTimeout(request)),
                ),
                _ => failed(ErrorView::Unknown),
            },
            FlowView::RecordingFailedDispatch { request, route, reason } => {
                let error = ErrorView::RMQPublishError(reason);
                (
                    FlowView::Rejecting { error },
                    Some(
                        CommandView::Publish(
                            PublishView::to_client(
                                ServiceResponseView::publish_error(
                                    request,
                                    error.message(),
                                    stamp.time_text,
                                ),
                                route.reply_to,
                                route.correlation_id,
                            ),
                        ),
                    ),
                )
            },
            FlowView::Rejecting { error } => match answer {
                AnswerView::Published(Err(reason)) => failed(
                    ErrorView::RMQPublishError(reason),
                ),
                _ => failed(error),
            },
            FlowView::SavingResponse { response, route } => match answer {
                AnswerView::Saved(true) => (
                    FlowView::Finishing,
                    Some(
                        CommandView::Publish(
                            PublishView::to_client(response, route.reply_to, route.correlation_id),
                        ),
                    ),
                ),
                AnswerView::Saved(false) => finished(),
                _ => failed(ErrorView::Unknown),
            },
            FlowView::CheckingResponse { request, route } => match answer {
                AnswerView::Exists(existing) => (
                    FlowView::Claiming { request, route, existing },
                    Some(CommandView::SaveTimeout(request)),
                ),
                _ => failed(ErrorView::Unknown),
            },
            FlowView::Claiming { request, route, existing } => match answer {
                AnswerView::Saved(inserted) => if !existing && inserted {
                    (
                        FlowView::ReportingTimeout { request, route },
                        Some(
                            CommandView::Publish(
                                PublishView::timeout_failure(request, route, config),
                            ),
                        ),
                    )
                } else {
                    finished()
                },
                _ => failed(ErrorView::Unknown),
            },
            FlowView::ReportingTimeout { request, route } => (
                FlowView::Finishing,
                Some(
                    CommandView::Publish(
                        PublishView::to_client(
                            ServiceResponseView::timeout(request, stamp.time_text),
                            route.reply_to,
                            route.correlation_id,
                        ),
                    ),
                ),
            ),
            FlowView::Finishing => match answer {
                AnswerView::Published(Ok(())) => finished(),
                AnswerView::Published(Err(reason)) => failed(
                    ErrorView::RMQPublishError(reason),
                ),
                _ => failed(ErrorView::Unknown),
            },
            FlowView::Closing => finished(),
            FlowView::Done(outcome) => (FlowView::Done(outcome), None),
        }
    }
}

impl Flow {
    /// Whether the handler is over.
    pub fn is_done(&self) -> (done: bool)
        ensures
            done == self@.done(),
    {
        match self {
            Flow::Done(_) => true,
            _ => false,
        }
    }

    /// How the handler ended, if it is over.
    pub fn outcome(self) -> (outcome: Option<Result<(), CustomProjectErrors>>)
        ensures
            outcome is Some <==> self@.done(),
            outcome matches Some(result) ==> self == Flow::Done(result),
    {
        match self {
            Flow::Done(result) => Some(result),
            _ => None,
        }
    }
}

/// Ends a handler with `error`.
fn fail(error: CustomProjectErrors) -> (next: (Flow, Option<Command>))
    ensures
        (next.0@, command_view(next.1)) == failed(error@),
{
    (Flow::Done(Err(error)), None)
}

/// Ends a handler that has done its work.
fn finish() -> (next: (Flow, Option<Command>))
    ensures
        (next.0@, command_view(next.1)) == finished(),
{
    (Flow::Done(Ok(())), None)
}

/// Begins the handling of a client request. `by_pass` is the least that
/// could be read of the message, `request` the whole of it, each with the
/// schema's complaint where it could not be read.
pub fn on_client_message(
    by_pass: Result<ByPassRequest, String>,
    request: Result<BaseRequest, String>,
    route: ReplyRoute,
    stamp: Stamp,
    config: &Config,
) -> (next: (Flow, Option<Command>))
    requires
        config.wf(),
    ensures
        (next.0@, command_view(next.1)) == FlowView::client(
            decoded_view(by_pass),
            decoded_view(request),
            route@,
            stamp@,
            *config,
        ),
{
    let by_pass = match by_pass {
        Ok(by_pass) => by_pass,
        Err(complaint) => {
            return fail(CustomProjectErrors::IncomingSerializingMessageError(complaint));
        },
    };
    match get_request(by_pass, request, &route, stamp, config) {
        Ok(request) => {
            let service_id = request.application.service_id;
            (Flow::FindingService { request, route }, Some(Command::FindService(service_id)))
        },
        Err(rejection) => (
            Flow::Rejecting { error: rejection.error },
            Some(Command::Publish(rejection.notice)),
        ),
    }
}

/// Begins the handling of a service response.
pub fn on_service_message(response: Result<ServiceResponse, String>, route: ReplyRoute) -> (next: (
    Flow,
    Option<Command>,
))
    ensures
        (next.0@, command_view(next.1)) == FlowView::service(decoded_view(response), route@),
{
    match response {
        Err(complaint) => fail(CustomProjectErrors::IncomingSerializingMessageError(complaint)),
        Ok(response) => {
            let row = response.clone();
            (Flow::SavingResponse { response, route }, Some(Command::SaveResponse(row)))
        },
    }
}

/// Begins the handling of a failure record.
pub fn on_fail_message(record: Result<MappedError, String>) -> (next: (Flow, Option<Command>))
    ensures
        (next.0@, command_view(next.1)) == FlowView::failure(decoded_view(record)),
{
    match record {
        Err(complaint) => fail(CustomProjectErrors::IncomingSerializingMessageError(complaint)),
        Ok(record) => (Flow::Closing, Some(Command::SaveFailure(record))),
    }
}

/// Begins the handling of a timeout: the delayed copy of a request has come
/// back.
pub fn on_timeout_message(request: Result<Request, String>, route: ReplyRoute) -> (next: (
    Flow,
    Option<Command>,
))
    ensures
        (next.0@, command_view(next.1)) == FlowView::timeout(decoded_view(request), route@),
{
    match request {
        Err(complaint) => fail(CustomProjectErrors::IncomingSerializingMessageError(complaint)),
        Ok(request) => {
            let id = request.service_info.serhub_request_id.clone();
            (Flow::CheckingResponse { request, route }, Some(Command::CheckResponse(id)))
        },
    }
}

/// Completes a client request with what the registry says of its service.
fn enrich(request: BaseRequest, route: ReplyRoute, service: Services, stamp: Stamp) -> (next: (
    Flow,
    Option<Command>,
))
    ensures
        (next.0@, command_view(next.1)) == FlowView::enrich(request@, route@, service@, stamp@),
{
    let base_service_info = IncomingServiceInfo::from_service(service, stamp.now, stamp.request_id);
    let service_info = ServiceInfo::from(base_service_info);
    match service_info.validate() {
        Ok(()) => {
            let request = Request::new(request, service_info);
            let row = request.clone();
            (Flow::SavingRequest { request, route }, Some(Command::SaveRequest(row)))
        },
        Err(lines) => {
            let message = join_text(&lines, "\n");
            let request = Request::new(request, service_info);
            let response = ServiceResponse::generate_response_at(
                &request,
                Some(false),
                "RequestValidationError".to_owned(),
                lines,
                stamp.time_text,
            );
            let notice = send_message_to_client(&response, route.reply_to, route.correlation_id);
            (
                Flow::Rejecting {
                    error: CustomProjectErrors::ValidationError("ServiceInfo".to_owned(), message),
                },
                Some(Command::Publish(notice)),
            )
        },
    }
}

/// Takes the handler one step on, with the answer to its last command.
pub fn resume(flow: Flow, answer: Answer, stamp: Stamp, config: &Config) -> (next: (
    Flow,
    Option<Command>,
))
    ensures
        (next.0@, command_view(next.1)) == flow@.step(answer@, stamp@, *config),
{
    match flow {
        Flow::FindingService { request, route } => match answer {
            Answer::Service(Ok(service)) => enrich(request, route, service, stamp),
            Answer::Service(Err(reason)) => fail(
                CustomProjectErrors::DatabaseOperationError(reason),
            ),
            _ => fail(CustomProjectErrors::Unknown),
        },
        Flow::SavingRequest { request, route } => {
            let publish = send_message_to_service_at(
                &request,
                route.reply_to.clone(),
                route.correlation_id.clone(),
                config,
                stamp.now,
            );
            (Flow::SendingToService { request, route }, Some(Command::Publish(publish)))
        },
        Flow::SendingToService { request, route } => match answer {
            Answer::Published(Ok(())) => {
                let publish = send_delayed_message(
                    &request,
                    route.correlation_id,
                    route.reply_to,
                    config,
                );
                (Flow::Closing, Some(Command::Publish(publish)))
            },
            Answer::Published(Err(reason)) => {
                let row = request.clone();
                (
                    Flow::RecordingFailedDispatch { request, route, reason },
                    Some(Command::SaveTimeout(row)),
                )
            },
            _ => fail(CustomProjectErrors::Unknown),
        },
        Flow::RecordingFailedDispatch { request, route, reason } => {
            let error = CustomProjectErrors::RMQPublishError(reason);
            let message = error.to_string();
            let publish = send_publish_error_message(
                &request,
                message.as_str(),
                &route,
                stamp.time_text,
            );
            (Flow::Rejecting { error }, Some(Command::Publish(publish)))
        },
        Flow::Rejecting { error } => match answer {
            Answer::Published(Err(reason)) => fail(CustomProjectErrors::RMQPublishError(reason)),
            _ => fail(error),
        },
        Flow::SavingResponse { response, route } => match answer {
            Answer::Saved(true) => {
                let publish = send_message_to_client(
                    &response,
                    route.reply_to,
                    route.correlation_id,
                );
                (Flow::Finishing, Some(Command::Publish(publish)))
            },
            Answer::Saved(false) => finish(),
            _ => fail(CustomProjectErrors::Unknown),
        },
        Flow::CheckingResponse { request, route } => match answer {
            Answer::Exists(existing) => {
                let row = request.clone();
                (Flow::Claiming { request, route, existing }, Some(Command::SaveTimeout(row)))
            },
            _ => fail(CustomProjectErrors::Unknown),
        },
        Flow::Claiming { request, route, existing } => match answer {
            Answer::Saved(inserted) => {
                if !existing && inserted {
                    let publish = send_timeout_error_message(&request, &route, config);
                    (Flow::ReportingTimeout { request, route }, Some(Command::Publish(publish)))
                } else {
                    finish()
                }
            },
            _ => fail(CustomProjectErrors::Unknown),
        },
        Flow::ReportingTimeout { request, route } => {
            let publish = send_timeout_error_service(&request, &route, stamp.time_text);
            (Flow::Finishing, Some(Command::Publish(publish)))
        },
        Flow::Finishing => match answer {
            Answer::Published(Ok(())) => finish(),
            Answer::Published(Err(reason)) => fail(CustomProjectErrors::RMQPublishError(reason)),
            _ => fail(CustomProjectErrors::Unknown),
        },
        Flow::Closing => finish(),
        Flow::Done(outcome) => (Flow::Done(outcome), None),
    }
}

} // verus!
