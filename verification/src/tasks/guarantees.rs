//! What the handlers guarantee together with a response store in which the
//! first writer wins.
//!
//! Each statement runs handlers in the model: `FlowView::step` for the
//! handlers and `store_answer` for the store.

use crate::configs::Config;
use crate::database::functions::schemas::row_ids;
use crate::database::functions::store_answer;
use crate::mapping::schemas::{
    BaseRequestView, ByPassRequestView, MappedErrorView, RequestView, ServiceResponseView,
};
use crate::outside::uuid_value;
use crate::tasks::consumer::methods::{finished, FlowView};
use crate::tasks::protocol::{
    AnswerView, CommandView, PayloadView, PublishView, ReplyRouteView, StampView,
};
use vstd::prelude::*;

verus! {

/// Whether a command sends a message.
pub open spec fn is_publish(command: Option<CommandView>) -> bool {
    command matches Some(CommandView::Publish(_))
}

/// A response that arrives before the timeout is the only answer the caller
/// gets.
///
/// Take a store without a row for the request. The relay stores the
/// response and sends it to the caller, once. When the timeout for the same
/// request fires afterwards, it finds the row, fails to claim the request,
/// and ends without sending anything.
pub proof fn lemma_response_before_timeout(
    rows: Set<u128>,
    response: ServiceResponseView,
    request: RequestView,
    relay_route: ReplyRouteView,
    timeout_route: ReplyRouteView,
    stamp: StampView,
    config: Config,
)
    requires
        response.serhub_request_id == request.service_info.serhub_request_id,
        row_ids(response.application_id, response.serhub_request_id) matches Ok(ids)
            && !rows.contains(ids.1),
    ensures
        ({
            let (relay, save) = FlowView::service(Ok(response), relay_route);
            let (rows, saved) = store_answer(rows, save->0);
            let (relay, send) = relay.step(saved->0, stamp, config);
            let (relay, after) = relay.step(AnswerView::Published(Ok(())), stamp, config);
            let (timeout, check) = FlowView::timeout(Ok(request), timeout_route);
            let (rows, exists) = store_answer(rows, check->0);
            let (timeout, claim) = timeout.step(exists->0, stamp, config);
            let (rows, claimed) = store_answer(rows, claim->0);
            let (timeout, last) = timeout.step(claimed->0, stamp, config);
            &&& !is_publish(save)
            &&& send == Some(
                CommandView::Publish(
                    PublishView::to_client(
                        response,
                        relay_route.reply_to,
                        relay_route.correlation_id,
                    ),
                ),
            )
            &&& (relay, after) == finished()
            &&& !is_publish(check)
            &&& !is_publish(claim)
            &&& (timeout, last) == finished()
        }),
{
}

/// A timeout that finds no response answers the caller itself.
///
/// Take a request whose ids write UUIDs and a store without a row for it.
/// When the timeout fires, it claims the request, files one failure record
/// that says `ServiceTimeout`, sends the caller one response with the status
/// `ServiceTimeout`, and ends.
pub proof fn lemma_timeout_without_response(
    rows: Set<u128>,
    request: RequestView,
    route: ReplyRouteView,
    stamp: StampView,
    config: Config,
    filed: AnswerView,
)
    requires
        row_ids(
            request.application.application_id,
            request.service_info.serhub_request_id,
        ) matches Ok(ids) && !rows.contains(ids.1),
    ensures
        ({
            let (timeout, check) = FlowView::timeout(Ok(request), route);
            let (rows, exists) = store_answer(rows, check->0);
            let (timeout, claim) = timeout.step(exists->0, stamp, config);
            let (rows, claimed) = store_answer(rows, claim->0);
            let (timeout, file) = timeout.step(claimed->0, stamp, config);
            let (timeout, send) = timeout.step(filed, stamp, config);
            let (timeout, after) = timeout.step(AnswerView::Published(Ok(())), stamp, config);
            &&& !is_publish(check)
            &&& !is_publish(claim)
            &&& file == Some(
                CommandView::Publish(PublishView::timeout_failure(request, route, config)),
            )
            &&& file->0->Publish_0.payload == PayloadView::Failure(
                MappedErrorView::failure_of(request, "ServiceTimeout"@, "Service"@),
            )
            &&& send == Some(
                CommandView::Publish(
                    PublishView::to_client(
                        ServiceResponseView::timeout(request, stamp.time_text),
                        route.reply_to,
                        route.correlation_id,
                    ),
                ),
            )
            &&& send->0->Publish_0.payload->Response_0.status == "ServiceTimeout"@
            &&& send->0->Publish_0.exchange == request.target.exchange
            &&& send->0->Publish_0.routing_key == request.target.routing_key
            &&& (timeout, after) == finished()
        }),
{
}

/// A client request whose application id writes no UUID goes no further than
/// the entry check.
///
/// The handler's first and only command sends the caller one response with
/// the status `RequestValidationError`. Whatever comes back, the handler
/// then ends with an error: the registry is never asked, and nothing is
/// sent to a service.
pub proof fn lemma_invalid_id_is_refused(
    by_pass: ByPassRequestView,
    request: BaseRequestView,
    route: ReplyRouteView,
    stamp: StampView,
    config: Config,
    answer: AnswerView,
)
    requires
        uuid_value(request.application.application_id) is None,
    ensures
        ({
            let (flow, notice) = FlowView::client(Ok(by_pass), Ok(request), route, stamp, config);
            let (flow, after) = flow.step(answer, stamp, config);
            &&& notice matches Some(CommandView::Publish(publish))
            &&& publish.payload matches PayloadView::Response(refusal)
            &&& refusal.status == "RequestValidationError"@
            &&& publish.exchange == by_pass.target.exchange
            &&& publish.routing_key == by_pass.target.routing_key
            &&& flow matches FlowView::Done(Err(_))
            &&& after is None
        }),
{
}

/// The allow-list of services decides at the entry check.
///
/// A request for a service that is not on the list is refused, whatever else
/// it holds. A request for a listed service, from a listed system and under
/// an id that writes a UUID, passes, and the registry is asked for the
/// service.
pub proof fn lemma_allow_list_decides(
    by_pass: ByPassRequestView,
    request: BaseRequestView,
    route: ReplyRouteView,
    stamp: StampView,
    config: Config,
)
    ensures
        ({
            let (flow, command) = FlowView::client(Ok(by_pass), Ok(request), route, stamp, config);
            &&& !config.services().contains(request.application.service_id) ==> {
                &&& flow is Rejecting
                &&& command matches Some(CommandView::Publish(publish))
                &&& publish.payload matches PayloadView::Response(refusal)
                &&& refusal.status == "RequestValidationError"@
            }
            &&& config.services().contains(request.application.service_id)
                && config.systems().contains(request.application.system_id) && uuid_value(
                request.application.application_id,
            ) is Some ==> {
                &&& flow == (FlowView::FindingService { request, route })
                &&& command == Some(CommandView::FindService(request.application.service_id))
            }
        }),
{
}

/// In the response store the first writer wins.
///
/// Of two commands that insert a row for the same request, whether they come
/// from a response or from a timeout, the second inserts nothing, whatever
/// the store held before.
pub proof fn lemma_second_writer_loses(rows: Set<u128>, first: CommandView, second: CommandView)
    requires
        first is SaveResponse || first is SaveTimeout,
        second is SaveResponse || second is SaveTimeout,
        saved_request_id(first) == saved_request_id(second),
    ensures
        ({
            let (rows, _) = store_answer(rows, first);
            let (after, answer) = store_answer(rows, second);
            &&& answer == Some(AnswerView::Saved(false))
            &&& after == rows
        }),
{
    let (held, _) = store_answer(rows, first);
    let (after, _) = store_answer(held, second);
    assert(after =~= held);
}

/// The request id under which a command inserts a row, if it inserts one.
pub open spec fn saved_request_id(command: CommandView) -> Option<u128> {
    match command {
        CommandView::SaveResponse(response) => match row_ids(
            response.application_id,
            response.serhub_request_id,
        ) {
            Ok(ids) => Some(ids.1),
            Err(_) => None,
        },
        CommandView::SaveTimeout(request) => match row_ids(
            request.application.application_id,
            request.service_info.serhub_request_id,
        ) {
            Ok(ids) => Some(ids.1),
            Err(_) => None,
        },
        _ => None,
    }
}

/// What the response store holds after a run of commands, and how many of
/// them inserted a row for `key`.
pub open spec fn inserts_for(rows: Set<u128>, commands: Seq<CommandView>, key: u128) -> (
    Set<u128>,
    nat,
)
    decreases commands.len(),
{
    if commands.len() == 0 {
        (rows, 0)
    } else {
        let (rows, count) = inserts_for(rows, commands.drop_last(), key);
        let (after, answer) = store_answer(rows, commands.last());
        if saved_request_id(commands.last()) == Some(key) && answer == Some(
            AnswerView::Saved(true),
        ) {
            (after, count + 1)
        } else {
            (after, count)
        }
    }
}

/// The response store never takes two rows for one request.
///
/// Whatever commands reach the store and in whatever order, at most one of
/// them inserts a row for a given request, and none does if the store held
/// one from the start. Afterwards the store holds a row for the request
/// exactly if it did before or one was inserted.
pub proof fn lemma_one_row_per_request(rows: Set<u128>, commands: Seq<CommandView>, key: u128)
    ensures
        ({
            let (after, count) = inserts_for(rows, commands, key);
            &&& count <= 1
            &&& rows.contains(key) ==> count == 0
            &&& after.contains(key) <==> rows.contains(key) || count == 1
        }),
    decreases commands.len(),
{
    if commands.len() > 0 {
        lemma_one_row_per_request(rows, commands.drop_last(), key);
    }
}

/// Only the writer of the row speaks to the caller.
///
/// A handler that has asked the response store to insert a row, for a
/// response or for a timeout, sends a message next only if the answer is
/// that the row was inserted. With any other answer it ends without a
/// message.
pub proof fn lemma_only_the_writer_publishes(
    flow: FlowView,
    answer: AnswerView,
    stamp: StampView,
    config: Config,
)
    requires
        flow is SavingResponse || flow is Claiming,
    ensures
        ({
            let (next, command) = flow.step(answer, stamp, config);
            &&& is_publish(command) ==> answer == AnswerView::Saved(true)
            &&& !is_publish(command) ==> command is None && next.done()
        }),
{
}

/// The service and the timer get the same request.
///
/// Once a request has been recorded, the handler sends it to its service
/// and, when the broker has taken it, sends the delayed copy. Both messages
/// carry the request as it was recorded, and the delayed copy is held back
/// for the service's time in milliseconds.
pub proof fn lemma_copies_carry_the_request(
    request: RequestView,
    route: ReplyRouteView,
    stamp: StampView,
    later: StampView,
    config: Config,
    recorded: AnswerView,
)
    ensures
        ({
            let flow = FlowView::SavingRequest { request, route };
            let (flow, to_service) = flow.step(recorded, stamp, config);
            let (flow, delayed) = flow.step(AnswerView::Published(Ok(())), later, config);
            &&& to_service matches Some(CommandView::Publish(first))
            &&& delayed matches Some(CommandView::Publish(second))
            &&& first.payload == PayloadView::Request(request)
            &&& second.payload == PayloadView::Request(request)
            &&& first.exchange == request.service_info.exchange
            &&& first.routing_key == request.service_info.routing_key
            &&& second.properties.delay == Some(
                (request.service_info.service_timeout * 1000) as u32,
            )
            &&& FlowView::timeout(Ok(second.payload->Request_0), route).0
                == (FlowView::CheckingResponse { request, route })
        }),
{
}

/// Only checked requests are sent on.
///
/// Whatever a client sends and whatever the registry answers, a request that
/// the handler records, and then sends to a service, comes from an
/// application that breaks no rule, says where it goes, and carries the
/// caller's application, payload and target unchanged.
pub proof fn lemma_recorded_requests_are_valid(
    by_pass: ByPassRequestView,
    request: Result<BaseRequestView, Seq<char>>,
    route: ReplyRouteView,
    stamp: StampView,
    later: StampView,
    config: Config,
    answer: AnswerView,
)
    ensures
        ({
            let (flow, _) = FlowView::client(Ok(by_pass), request, route, stamp, config);
            let (flow, command) = flow.step(answer, later, config);
            command matches Some(CommandView::SaveRequest(recorded)) ==> {
                &&& request matches Ok(body)
                &&& body.application.valid(config.services(), config.systems())
                &&& recorded.application == body.application
                &&& recorded.person == body.person
                &&& recorded.target == body.target
                &&& recorded.service_info.valid()
                &&& recorded.service_info.serhub_request_id == later.request_id
                &&& recorded.service_info.timestamp_received == later.now
                &&& flow == (FlowView::SavingRequest { request: recorded, route })
            }
        }),
{
}

/// How many commands a handler may still hand out, at most.
pub open spec fn steps_left(flow: FlowView) -> nat {
    match flow {
        FlowView::FindingService { .. } => 6,
        FlowView::SavingRequest { .. } => 5,
        FlowView::SendingToService { .. } => 4,
        FlowView::RecordingFailedDispatch { .. } => 3,
        FlowView::Rejecting { .. } => 1,
        FlowView::SavingResponse { .. } => 2,
        FlowView::CheckingResponse { .. } => 5,
        FlowView::Claiming { .. } => 4,
        FlowView::ReportingTimeout { .. } => 2,
        FlowView::Finishing => 1,
        FlowView::Closing => 1,
        FlowView::Done(_) => 0,
    }
}

/// Every handler comes to its end.
///
/// Each answer takes a handler that is not over closer to its end, whatever
/// the answer is. A handler hands out a command exactly as long as it is
/// not over, so whoever performs its commands one by one is done after at
/// most six of them.
pub proof fn lemma_handlers_end(flow: FlowView, answer: AnswerView, stamp: StampView, config: Config)
    ensures
        ({
            let (next, command) = flow.step(answer, stamp, config);
            &&& command is None <==> next.done()
            &&& !flow.done() ==> steps_left(next) < steps_left(flow)
            &&& flow.done() ==> next == flow
        }),
{
}

/// Every handler starts with a command or is over at once.
pub proof fn lemma_handlers_start(
    by_pass: Result<ByPassRequestView, Seq<char>>,
    request: Result<BaseRequestView, Seq<char>>,
    response: Result<ServiceResponseView, Seq<char>>,
    record: Result<MappedErrorView, Seq<char>>,
    delayed: Result<RequestView, Seq<char>>,
    route: ReplyRouteView,
    stamp: StampView,
    config: Config,
)
    ensures
        ({
            let (flow, command) = FlowView::client(by_pass, request, route, stamp, config);
            (command is None <==> flow.done()) && steps_left(flow) <= 6
        }),
        ({
            let (flow, command) = FlowView::service(response, route);
            (command is None <==> flow.done()) && steps_left(flow) <= 6
        }),
        ({
            let (flow, command) = FlowView::failure(record);
            (command is None <==> flow.done()) && steps_left(flow) <= 6
        }),
        ({
            let (flow, command) = FlowView::timeout(delayed, route);
            (command is None <==> flow.done()) && steps_left(flow) <= 6
        }),
{
}

} // verus!
