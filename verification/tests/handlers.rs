use servicehub::configs::Config;
use servicehub::database::functions::ResponseStore;
use servicehub::database::models::Services;
use servicehub::errors::CustomProjectErrors;
use servicehub::mapping::schemas::{
    Application, BaseRequest, ByPassRequest, Request, RmqTarget, ServiceResponse,
};
use servicehub::tasks::consumer::methods::{
    on_client_message, on_fail_message, on_service_message, on_timeout_message, resume, Flow,
};
use servicehub::tasks::protocol::{Answer, Command, Payload, Publish, ReplyRoute, Stamp};
use servicehub::MappedError;

const CALLER: &str = "0f9bfc9e-6a1c-4e0b-9d3e-3c1a2b4d5e6f";
const FIRST_ID: &str = "11111111-1111-4111-8111-111111111111";
const SECOND_ID: &str = "22222222-2222-4222-8222-222222222222";

fn config() -> Config {
    let mut config = Config::from_empty_env();
    config.available_services = String::from("7");
    config.available_users = String::from("1");
    config
}

fn stamp(now: i64, id: &str) -> Stamp {
    Stamp { now, time_text: format!("t{}", now), request_id: String::from(id) }
}

fn route() -> ReplyRoute {
    ReplyRoute { reply_to: String::from("amq.reply"), correlation_id: String::from("corr-1") }
}

fn empty_object() -> serde_json::Value {
    serde_json::Value::Object(serde_json::Map::new())
}

fn application(id: &str, service_id: i32) -> Application {
    Application {
        application_id: String::from(id),
        service_id,
        system_id: 1,
        multi_request: false,
    }
}

fn target() -> RmqTarget {
    RmqTarget {
        vhost: String::from("/"),
        exchange: String::from("client.ex"),
        routing_key: String::from("client.rk"),
        queue: None,
    }
}

fn by_pass(id: &str, service_id: i32) -> ByPassRequest {
    ByPassRequest { application: application(id, service_id), target: target() }
}

fn base_request(id: &str, service_id: i32) -> BaseRequest {
    BaseRequest {
        application: application(id, service_id),
        person: empty_object(),
        service_info: None,
        target: target(),
    }
}

fn billing() -> Services {
    Services {
        id: 7,
        name: String::from("billing"),
        exchange: String::from("billing"),
        queue: String::from("billing.q"),
        routing_key: String::from("billing.create"),
        cache_fields: String::from("name, age"),
        cache_expiration: None,
        timeout: 5,
    }
}

fn publish_of(command: Option<Command>) -> Publish {
    match command {
        Some(Command::Publish(publish)) => publish,
        other => panic!("no message: {:?}", other),
    }
}

fn response_of(publish: &Publish) -> &ServiceResponse {
    match &publish.payload {
        Payload::Response(response) => response,
        other => panic!("no response: {:?}", other),
    }
}

fn request_of(publish: &Publish) -> &Request {
    match &publish.payload {
        Payload::Request(request) => request,
        other => panic!("no request: {:?}", other),
    }
}

fn failure_of(publish: &Publish) -> &MappedError {
    match &publish.payload {
        Payload::Failure(record) => record,
        other => panic!("no failure record: {:?}", other),
    }
}

/// Takes a client request as far as the message to its service and hands
/// back the flow, that message, and the request as it was recorded.
fn dispatch(now: i64, id: &str) -> (Flow, Publish, Request) {
    let config = config();
    let (flow, command) = on_client_message(
        Ok(by_pass(CALLER, 7)),
        Ok(base_request(CALLER, 7)),
        route(),
        stamp(now, id),
        &config,
    );
    assert_eq!(command, Some(Command::FindService(7)));
    let (flow, command) = resume(flow, Answer::Service(Ok(billing())), stamp(now, id), &config);
    let recorded = match command {
        Some(Command::SaveRequest(request)) => request,
        other => panic!("request not recorded: {:?}", other),
    };
    let (flow, command) = resume(flow, Answer::Saved(true), stamp(now, id), &config);
    (flow, publish_of(command), recorded)
}

/// Runs the timeout for `request` against `store` and hands back what it
/// sent and how it ended.
fn run_timeout(
    request: Request,
    store: &mut ResponseStore,
) -> (Vec<Publish>, Result<(), CustomProjectErrors>) {
    let config = config();
    let mut sent = Vec::new();
    let (mut flow, mut command) = on_timeout_message(Ok(request), route());
    while let Some(current) = command {
        let answer = match store.perform(&current) {
            Some(answer) => answer,
            None => {
                sent.push(publish_of(Some(current)));
                Answer::Published(Ok(()))
            }
        };
        let next = resume(flow, answer, stamp(200, SECOND_ID), &config);
        flow = next.0;
        command = next.1;
    }
    (sent, flow.outcome().expect("the handler is over"))
}

/// Runs the relay for `response` against `store` and hands back what it
/// sent and how it ended.
fn run_relay(
    response: ServiceResponse,
    store: &mut ResponseStore,
) -> (Vec<Publish>, Result<(), CustomProjectErrors>) {
    let config = config();
    let mut sent = Vec::new();
    let (mut flow, mut command) = on_service_message(Ok(response), route());
    while let Some(current) = command {
        let answer = match store.perform(&current) {
            Some(answer) => answer,
            None => {
                sent.push(publish_of(Some(current)));
                Answer::Published(Ok(()))
            }
        };
        let next = resume(flow, answer, stamp(150, SECOND_ID), &config);
        flow = next.0;
        command = next.1;
    }
    (sent, flow.outcome().expect("the handler is over"))
}

fn service_answer(request: &Request) -> ServiceResponse {
    ServiceResponse {
        application_id: request.application.application_id.clone(),
        serhub_request_id: request.service_info.serhub_request_id.clone(),
        service_id: 7,
        system_id: 1,
        is_cache: false,
        status: String::from("Ok"),
        status_description: vec![],
        response_created_time: String::from("2024-01-01 00:00:03"),
        response: Some(empty_object()),
        target: request.target.clone(),
    }
}

#[test]
fn request_is_sent_to_its_service_and_scheduled_for_timeout() {
    let config = config();
    let (flow, to_service, recorded) = dispatch(100, FIRST_ID);

    assert_eq!(to_service.exchange, "billing");
    assert_eq!(to_service.routing_key, "billing.create");
    assert_eq!(to_service.properties.content_type, "application/json");
    assert_eq!(to_service.properties.reply_to, "amq.reply");
    assert_eq!(to_service.properties.correlation_id, "corr-1");
    assert_eq!(to_service.properties.expiration, Some(String::from("5000")));
    assert_eq!(to_service.properties.delay, None);
    assert_eq!(to_service.properties.app_id, None);
    assert!(to_service.expected_exchange.is_some());
    let request = request_of(&to_service);
    assert_eq!(request, &recorded);
    assert_eq!(request.application, application(CALLER, 7));
    assert_eq!(request.person, empty_object());
    assert_eq!(request.target, target());
    assert_eq!(request.service_info.serhub_request_id, FIRST_ID);
    assert_eq!(request.service_info.timestamp_received, 100);
    assert_eq!(request.service_info.service_timeout, 5);
    assert_eq!(request.service_info.cache_fields, vec!["name", "age"]);
    assert_eq!(request.service_info.exchange, "billing");
    assert_eq!(request.service_info.routing_key, "billing.create");

    let (flow, command) = resume(flow, Answer::Published(Ok(())), stamp(101, SECOND_ID), &config);
    let delayed = publish_of(command);
    assert_eq!(delayed.exchange, "delayed_exchange");
    assert_eq!(delayed.routing_key, "timeout_requests");
    assert_eq!(delayed.properties.delay, Some(5000));
    assert_eq!(delayed.properties.expiration, None);
    assert_eq!(delayed.properties.reply_to, "amq.reply");
    assert_eq!(delayed.properties.correlation_id, "corr-1");
    assert_eq!(request_of(&delayed), &recorded);
    assert!(!flow.is_done());

    let (flow, command) = resume(flow, Answer::Published(Ok(())), stamp(101, SECOND_ID), &config);
    assert_eq!(command, None);
    assert_eq!(flow, Flow::Done(Ok(())));
}

#[test]
fn silent_service_gets_the_caller_one_timeout_response() {
    let (_, to_service, _) = dispatch(100, FIRST_ID);
    let mut store = ResponseStore::new();

    let (sent, outcome) = run_timeout(request_of(&to_service).clone(), &mut store);

    assert_eq!(outcome, Ok(()));
    assert_eq!(sent.len(), 2);
    assert_eq!(sent[0].exchange, "servicehub");
    assert_eq!(sent[0].routing_key, "servicehub.q.fail_table");
    let record = failure_of(&sent[0]);
    assert_eq!(record.error_type, Some(String::from("Service")));
    assert_eq!(record.error_message, Some(String::from("ServiceTimeout")));
    assert_eq!(record.error_traceback, None);
    assert_eq!(record.data, None);
    assert_eq!(record.application_id, CALLER);
    assert_eq!(record.serhub_request_id, FIRST_ID);
    assert_eq!(record.service_id, 7);
    assert_eq!(record.system_id, 1);
    assert_eq!(sent[1].exchange, "client.ex");
    assert_eq!(sent[1].routing_key, "client.rk");
    assert_eq!(sent[1].properties.expiration, Some(String::from("60000")));
    assert_eq!(sent[1].properties.app_id, Some(String::from(CALLER)));
    assert_eq!(sent[1].properties.reply_to, "amq.reply");
    assert_eq!(sent[1].properties.correlation_id, "corr-1");
    let response = response_of(&sent[1]);
    assert_eq!(response.status, "ServiceTimeout");
    assert_eq!(response.status_description, vec!["service_timeout"]);
    assert!(!response.is_cache);
    assert_eq!(response.application_id, CALLER);
    assert_eq!(response.serhub_request_id, FIRST_ID);
    assert_eq!(response.service_id, 7);
    assert_eq!(response.system_id, 1);
    assert_eq!(response.response, None);
    assert_eq!(response.response_created_time, "t200");
    assert_eq!(response.target, target());
    let to_caller = sent.iter().filter(|publish| publish.exchange == "client.ex").count();
    assert_eq!(to_caller, 1);
}

#[test]
fn response_before_timeout_is_the_only_answer() {
    let (_, to_service, _) = dispatch(100, FIRST_ID);
    let request = request_of(&to_service).clone();
    let mut store = ResponseStore::new();

    let answer = service_answer(&request);
    let (relayed, outcome) = run_relay(answer.clone(), &mut store);
    assert_eq!(outcome, Ok(()));
    assert_eq!(relayed.len(), 1);
    assert_eq!(relayed[0].exchange, "client.ex");
    assert_eq!(relayed[0].routing_key, "client.rk");
    assert_eq!(relayed[0].properties.expiration, Some(String::from("60000")));
    assert_eq!(relayed[0].properties.app_id, Some(String::from(CALLER)));
    assert_eq!(response_of(&relayed[0]), &answer);

    let (sent, outcome) = run_timeout(request, &mut store);
    assert_eq!(outcome, Ok(()));
    assert!(sent.is_empty());
}

#[test]
fn response_after_timeout_is_dropped() {
    let (_, to_service, _) = dispatch(100, FIRST_ID);
    let request = request_of(&to_service).clone();
    let mut store = ResponseStore::new();

    let (sent, _) = run_timeout(request.clone(), &mut store);
    assert_eq!(sent.len(), 2);
    let (relayed, outcome) = run_relay(service_answer(&request), &mut store);
    assert_eq!(outcome, Ok(()));
    assert!(relayed.is_empty());
}

#[test]
fn second_timeout_for_a_request_sends_nothing() {
    let (_, to_service, _) = dispatch(100, FIRST_ID);
    let request = request_of(&to_service).clone();
    let mut store = ResponseStore::new();

    assert_eq!(run_timeout(request.clone(), &mut store).0.len(), 2);
    assert!(run_timeout(request, &mut store).0.is_empty());
}

#[test]
fn timeout_that_cannot_claim_sends_nothing() {
    let config = config();
    let (_, to_service, _) = dispatch(100, FIRST_ID);
    let request = request_of(&to_service).clone();
    for (existing, inserted) in [(true, true), (true, false), (false, false)] {
        let (flow, command) = on_timeout_message(Ok(request.clone()), route());
        assert_eq!(command, Some(Command::CheckResponse(String::from(FIRST_ID))));
        let (flow, command) =
            resume(flow, Answer::Exists(existing), stamp(200, SECOND_ID), &config);
        assert_eq!(command, Some(Command::SaveTimeout(request.clone())));
        let (flow, command) =
            resume(flow, Answer::Saved(inserted), stamp(200, SECOND_ID), &config);
        assert_eq!(command, None);
        assert_eq!(flow, Flow::Done(Ok(())));
    }
}

#[test]
fn timeout_answers_the_caller_even_if_the_failure_record_is_lost() {
    let config = config();
    let (_, to_service, _) = dispatch(100, FIRST_ID);
    let request = request_of(&to_service).clone();
    let flow = Flow::Claiming { request, route: route(), existing: false };
    let (flow, command) = resume(flow, Answer::Saved(true), stamp(200, SECOND_ID), &config);
    assert_eq!(publish_of(command).routing_key, "servicehub.q.fail_table");
    let lost = Answer::Published(Err(String::from("channel closed")));
    let (flow, command) = resume(flow, lost, stamp(201, SECOND_ID), &config);
    let publish = publish_of(command);
    assert_eq!(publish.exchange, "client.ex");
    assert_eq!(response_of(&publish).status, "ServiceTimeout");
    assert_eq!(response_of(&publish).response_created_time, "t201");
    let lost = Answer::Published(Err(String::from("channel closed")));
    let (flow, command) = resume(flow, lost, stamp(202, SECOND_ID), &config);
    assert_eq!(command, None);
    assert_eq!(
        flow,
        Flow::Done(Err(CustomProjectErrors::RMQPublishError(String::from("channel closed"))))
    );
}

#[test]
fn request_with_a_bad_application_id_is_refused_at_once() {
    let config = config();
    let (flow, command) = on_client_message(
        Ok(by_pass("Foo", 7)),
        Ok(base_request("Foo", 7)),
        route(),
        stamp(100, FIRST_ID),
        &config,
    );
    let notice = publish_of(command);
    assert_eq!(notice.exchange, "client.ex");
    assert_eq!(notice.routing_key, "client.rk");
    assert_eq!(notice.properties.reply_to, "amq.reply");
    assert_eq!(notice.properties.correlation_id, "corr-1");
    assert_eq!(notice.properties.app_id, Some(String::from("Foo")));
    let refusal = response_of(&notice);
    assert_eq!(refusal.status, "RequestValidationError");
    assert_eq!(refusal.status_description, vec!["application_id: Incoming value isn't a Uuid"]);
    assert_eq!(refusal.application_id, "Foo");
    assert_eq!(refusal.serhub_request_id, FIRST_ID);
    assert_eq!(refusal.service_id, 7);
    assert_eq!(refusal.system_id, 1);
    assert!(!refusal.is_cache);
    assert_eq!(refusal.response_created_time, "t100");
    assert_eq!(refusal.target, target());

    let (flow, command) = resume(flow, Answer::Published(Ok(())), stamp(100, FIRST_ID), &config);
    assert_eq!(command, None);
    assert_eq!(
        flow,
        Flow::Done(Err(CustomProjectErrors::ValidationError(
            String::from("BaseRequest"),
            String::from("application_id: Incoming value isn't a Uuid"),
        )))
    );
}

#[test]
fn unlisted_service_is_refused_and_listed_service_is_looked_up() {
    let config = config();
    for service_id in -3..12 {
        let (flow, command) = on_client_message(
            Ok(by_pass(CALLER, service_id)),
            Ok(base_request(CALLER, service_id)),
            route(),
            stamp(100, FIRST_ID),
            &config,
        );
        if service_id == 7 {
            assert_eq!(command, Some(Command::FindService(7)));
            assert!(matches!(flow, Flow::FindingService { .. }));
        } else {
            let notice = publish_of(command);
            assert_eq!(response_of(&notice).status, "RequestValidationError");
            assert_eq!(
                response_of(&notice).status_description,
                vec!["service_id: Service ID is not available"]
            );
            assert!(matches!(flow, Flow::Rejecting { .. }));
        }
    }
}

#[test]
fn every_broken_rule_is_reported() {
    let config = config();
    let mut request = base_request("nope", 8);
    request.application.system_id = 2;
    let mut least = by_pass("nope", 8);
    least.application.system_id = 2;
    let (flow, command) =
        on_client_message(Ok(least), Ok(request), route(), stamp(100, FIRST_ID), &config);
    let lines = vec![
        "application_id: Incoming value isn't a Uuid",
        "service_id: Service ID is not available",
        "system_id: System ID is not available",
    ];
    assert_eq!(response_of(&publish_of(command)).status_description, lines);
    assert_eq!(
        flow,
        Flow::Rejecting {
            error: CustomProjectErrors::ValidationError(
                String::from("BaseRequest"),
                lines.join("\n"),
            )
        }
    );
}

#[test]
fn request_that_does_not_fit_the_schema_is_refused_with_the_complaint() {
    let config = config();
    let (flow, command) = on_client_message(
        Ok(by_pass(CALLER, 7)),
        Err(String::from("missing field `person`")),
        route(),
        stamp(100, FIRST_ID),
        &config,
    );
    let notice = publish_of(command);
    assert_eq!(notice.exchange, "client.ex");
    assert_eq!(response_of(&notice).status, "RequestValidationError");
    assert_eq!(response_of(&notice).status_description, vec!["missing field `person`"]);
    assert_eq!(
        flow,
        Flow::Rejecting {
            error: CustomProjectErrors::ValidationError(
                String::from("BaseRequest"),
                String::from("missing field `person`"),
            )
        }
    );
}

#[test]
fn message_without_a_caller_ends_the_handler() {
    let config = config();
    let (flow, command) = on_client_message(
        Err(String::from("expected value at line 1 column 1")),
        Err(String::from("expected value at line 1 column 1")),
        route(),
        stamp(100, FIRST_ID),
        &config,
    );
    assert_eq!(command, None);
    assert_eq!(
        flow,
        Flow::Done(Err(CustomProjectErrors::IncomingSerializingMessageError(String::from(
            "expected value at line 1 column 1"
        ))))
    );
}

#[test]
fn refusal_that_cannot_be_sent_ends_with_the_publish_error() {
    let config = config();
    let (flow, _) = on_client_message(
        Ok(by_pass("Foo", 7)),
        Ok(base_request("Foo", 7)),
        route(),
        stamp(100, FIRST_ID),
        &config,
    );
    let (flow, command) = resume(
        flow,
        Answer::Published(Err(String::from("no route"))),
        stamp(100, FIRST_ID),
        &config,
    );
    assert_eq!(command, None);
    assert_eq!(
        flow,
        Flow::Done(Err(CustomProjectErrors::RMQPublishError(String::from("no route"))))
    );
}

#[test]
fn registry_failure_ends_the_handler() {
    let config = config();
    let (flow, _) = on_client_message(
        Ok(by_pass(CALLER, 7)),
        Ok(base_request(CALLER, 7)),
        route(),
        stamp(100, FIRST_ID),
        &config,
    );
    let (flow, command) = resume(
        flow,
        Answer::Service(Err(String::from("no rows returned"))),
        stamp(100, FIRST_ID),
        &config,
    );
    assert_eq!(command, None);
    assert_eq!(
        flow,
        Flow::Done(Err(CustomProjectErrors::DatabaseOperationError(String::from(
            "no rows returned"
        ))))
    );
}

#[test]
fn service_without_an_exchange_is_refused() {
    let config = config();
    let (flow, _) = on_client_message(
        Ok(by_pass(CALLER, 7)),
        Ok(base_request(CALLER, 7)),
        route(),
        stamp(100, FIRST_ID),
        &config,
    );
    let mut service = billing();
    service.exchange = String::from("  ");
    service.routing_key = String::new();
    let (flow, command) =
        resume(flow, Answer::Service(Ok(service)), stamp(100, FIRST_ID), &config);
    let notice = publish_of(command);
    assert_eq!(notice.exchange, "client.ex");
    assert_eq!(notice.routing_key, "client.rk");
    let refusal = response_of(&notice);
    assert_eq!(refusal.status, "RequestValidationError");
    assert_eq!(
        refusal.status_description,
        vec!["exchange: Value not given", "routing_key: Value not given"]
    );
    assert_eq!(refusal.serhub_request_id, FIRST_ID);
    assert_eq!(refusal.application_id, CALLER);
    assert_eq!(
        flow,
        Flow::Rejecting {
            error: CustomProjectErrors::ValidationError(
                String::from("ServiceInfo"),
                String::from("exchange: Value not given\nrouting_key: Value not given"),
            )
        }
    );
}

#[test]
fn failed_dispatch_is_recorded_and_reported_without_a_timeout() {
    let config = config();
    let (flow, _, recorded) = dispatch(100, FIRST_ID);
    let (flow, command) = resume(
        flow,
        Answer::Published(Err(String::from("NOT_FOUND - no exchange 'billing'"))),
        stamp(101, SECOND_ID),
        &config,
    );
    assert_eq!(command, Some(Command::SaveTimeout(recorded)));
    let (flow, command) = resume(flow, Answer::Saved(true), stamp(102, SECOND_ID), &config);
    let notice = publish_of(command);
    assert_eq!(notice.exchange, "client.ex");
    assert_eq!(notice.routing_key, "client.rk");
    assert_eq!(notice.properties.delay, None);
    let response = response_of(&notice);
    assert_eq!(response.status, "RMQPublishError");
    assert_eq!(
        response.status_description,
        vec!["Message publish error: NOT_FOUND - no exchange 'billing'"]
    );
    assert!(!response.is_cache);
    assert_eq!(response.serhub_request_id, FIRST_ID);
    assert_eq!(response.response_created_time, "t102");
    let (flow, command) = resume(flow, Answer::Published(Ok(())), stamp(103, SECOND_ID), &config);
    assert_eq!(command, None);
    assert_eq!(
        flow,
        Flow::Done(Err(CustomProjectErrors::RMQPublishError(String::from(
            "NOT_FOUND - no exchange 'billing'"
        ))))
    );
}

#[test]
fn schedule_failure_does_not_fail_the_request() {
    let config = config();
    let (flow, _, _) = dispatch(100, FIRST_ID);
    let (flow, _) = resume(flow, Answer::Published(Ok(())), stamp(101, SECOND_ID), &config);
    let (flow, command) = resume(
        flow,
        Answer::Published(Err(String::from("delayed exchange missing"))),
        stamp(101, SECOND_ID),
        &config,
    );
    assert_eq!(command, None);
    assert_eq!(flow, Flow::Done(Ok(())));
}

#[test]
fn late_dispatch_expires_at_once() {
    let config = config();
    let (flow, command) = on_client_message(
        Ok(by_pass(CALLER, 7)),
        Ok(base_request(CALLER, 7)),
        route(),
        stamp(100, FIRST_ID),
        &config,
    );
    assert!(command.is_some());
    let (flow, _) = resume(flow, Answer::Service(Ok(billing())), stamp(100, FIRST_ID), &config);
    let (_, command) = resume(flow, Answer::Saved(false), stamp(106, SECOND_ID), &config);
    assert_eq!(publish_of(command).properties.expiration, Some(String::from("0")));
}

#[test]
fn response_that_cannot_be_stored_is_not_relayed() {
    let config = config();
    let (_, to_service, _) = dispatch(100, FIRST_ID);
    let answer = service_answer(request_of(&to_service));
    let (flow, command) = on_service_message(Ok(answer.clone()), route());
    assert_eq!(command, Some(Command::SaveResponse(answer)));
    let (flow, command) = resume(flow, Answer::Saved(false), stamp(150, SECOND_ID), &config);
    assert_eq!(command, None);
    assert_eq!(flow, Flow::Done(Ok(())));

    let mut store = ResponseStore::new();
    let mut unkeyed = service_answer(request_of(&to_service));
    unkeyed.serhub_request_id = String::from("not-a-uuid");
    let (relayed, outcome) = run_relay(unkeyed, &mut store);
    assert!(relayed.is_empty());
    assert_eq!(outcome, Ok(()));
}

#[test]
fn relay_ends_as_its_publish_ends() {
    let config = config();
    let (_, to_service, _) = dispatch(100, FIRST_ID);
    let answer = service_answer(request_of(&to_service));
    let (flow, _) = on_service_message(Ok(answer), route());
    let (flow, command) = resume(flow, Answer::Saved(true), stamp(150, SECOND_ID), &config);
    assert!(command.is_some());
    let (flow, command) = resume(
        flow,
        Answer::Published(Err(String::from("connection reset"))),
        stamp(150, SECOND_ID),
        &config,
    );
    assert_eq!(command, None);
    assert_eq!(
        flow,
        Flow::Done(Err(CustomProjectErrors::RMQPublishError(String::from("connection reset"))))
    );
}

#[test]
fn undecodable_messages_end_their_handlers() {
    let complaint = String::from("EOF while parsing a value");
    let expected =
        Flow::Done(Err(CustomProjectErrors::IncomingSerializingMessageError(complaint.clone())));
    assert_eq!(on_service_message(Err(complaint.clone()), route()), (
        Flow::Done(Err(CustomProjectErrors::IncomingSerializingMessageError(complaint.clone()))),
        None
    ));
    assert_eq!(on_timeout_message(Err(complaint.clone()), route()).0, expected);
    assert_eq!(on_fail_message(Err(complaint)).0, expected);
}

#[test]
fn failure_record_is_saved_whatever_comes_of_it() {
    let config = config();
    let record = MappedError {
        application_id: String::from(CALLER),
        serhub_request_id: String::from(FIRST_ID),
        service_id: 7,
        system_id: 1,
        error_type: Some(String::from("Service")),
        error_message: Some(String::from("ServiceTimeout")),
        error_traceback: None,
        data: None,
    };
    for saved in [true, false] {
        let (flow, command) = on_fail_message(Ok(record.clone()));
        assert_eq!(command, Some(Command::SaveFailure(record.clone())));
        let (flow, command) = resume(flow, Answer::Saved(saved), stamp(1, FIRST_ID), &config);
        assert_eq!(command, None);
        assert_eq!(flow, Flow::Done(Ok(())));
    }
}

#[test]
fn answer_of_the_wrong_sort_ends_the_handler() {
    let config = config();
    let (flow, _, _) = dispatch(100, FIRST_ID);
    let (flow, command) = resume(flow, Answer::Exists(true), stamp(1, FIRST_ID), &config);
    assert_eq!(command, None);
    assert_eq!(flow, Flow::Done(Err(CustomProjectErrors::Unknown)));
    let (flow, command) = resume(flow, Answer::Saved(true), stamp(1, FIRST_ID), &config);
    assert_eq!(command, None);
    assert_eq!(flow, Flow::Done(Err(CustomProjectErrors::Unknown)));
    assert_eq!(flow.outcome(), Some(Err(CustomProjectErrors::Unknown)));
}

#[test]
fn stamps_carry_fresh_uuids() {
    let first = Stamp::take();
    let second = Stamp::take();
    assert!(uuid::Uuid::parse_str(&first.request_id).is_ok());
    assert!(uuid::Uuid::parse_str(&second.request_id).is_ok());
    assert_ne!(first.request_id, second.request_id);
    assert!(first.now > 1_600_000_000);
    assert!(second.now >= first.now);
    assert!(!first.time_text.is_empty());
}

#[test]
fn billing_request_without_a_reply_times_out_once() {
    let config = config();
    let mut store = ResponseStore::new();
    let mut sent: Vec<Publish> = Vec::new();

    let (mut flow, mut command) = on_client_message(
        Ok(by_pass(CALLER, 7)),
        Ok(base_request(CALLER, 7)),
        route(),
        stamp(100, FIRST_ID),
        &config,
    );
    while let Some(current) = command {
        let answer = match current {
            Command::FindService(7) => Answer::Service(Ok(billing())),
            Command::SaveRequest(_) => Answer::Saved(true),
            Command::Publish(publish) => {
                sent.push(publish);
                Answer::Published(Ok(()))
            }
            other => panic!("not expected: {:?}", other),
        };
        let next = resume(flow, answer, stamp(100, SECOND_ID), &config);
        flow = next.0;
        command = next.1;
    }
    assert_eq!(flow, Flow::Done(Ok(())));
    assert_eq!(sent.len(), 2);
    assert_eq!(sent[0].exchange, "billing");
    assert_eq!(sent[0].routing_key, "billing.create");
    assert_eq!(sent[0].properties.delay, None);
    assert_eq!(sent[1].properties.delay, Some(5000));
    assert_eq!(sent[0].payload, sent[1].payload);

    let delayed = sent.pop().expect("the delayed copy");
    let (after, outcome) = run_timeout(request_of(&delayed).clone(), &mut store);
    assert_eq!(outcome, Ok(()));
    let to_caller: Vec<&Publish> = after
        .iter()
        .filter(|publish| publish.exchange == "client.ex" && publish.routing_key == "client.rk")
        .collect();
    assert_eq!(to_caller.len(), 1);
    assert_eq!(response_of(to_caller[0]).status, "ServiceTimeout");
    let failures = after.iter().filter(|publish| matches!(publish.payload, Payload::Failure(_)));
    assert_eq!(failures.count(), 1);
}
