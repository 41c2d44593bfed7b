use servicehub::database::functions::{
    check_application_response, response_key, save_response_with_request, save_service_response,
    ResponseStore,
};
use servicehub::errors::CustomProjectErrors;
use servicehub::mapping::schemas::{
    Application, Request, RmqTarget, ServiceInfo, ServiceResponse,
};
use servicehub::tasks::protocol::{Answer, Command};

const CALLER: &str = "a1a2a3a4-b1b2-c1c2-d1d2-d3d4d5d6d7d8";
const FIRST: &str = "11111111-1111-4111-8111-111111111111";
const SECOND: &str = "22222222-2222-4222-8222-222222222222";

fn request(id: &str) -> Request {
    Request {
        application: Application {
            application_id: String::from(CALLER),
            service_id: 7,
            system_id: 1,
            multi_request: false,
        },
        person: serde_json::Value::Null,
        service_info: ServiceInfo {
            timestamp_received: 100,
            service_timeout: 5,
            serhub_request_id: String::from(id),
            cache_fields: vec![],
            cache_expiration: None,
            exchange: String::from("billing"),
            routing_key: String::from("billing.create"),
        },
        target: RmqTarget::default(),
    }
}

fn response(id: &str) -> ServiceResponse {
    ServiceResponse::generate_response_at(
        &request(id),
        None,
        String::from("Ok"),
        vec![],
        String::from("now"),
    )
}

#[test]
fn empty_store_holds_no_response() {
    let store = ResponseStore::new();
    assert_eq!(check_application_response(FIRST, &store), Ok(false));
    assert_eq!(check_application_response(SECOND, &store), Ok(false));
}

#[test]
fn first_writer_wins() {
    let mut store = ResponseStore::new();
    assert_eq!(save_service_response(&response(FIRST), &mut store), Ok(true));
    assert_eq!(check_application_response(FIRST, &store), Ok(true));
    assert_eq!(check_application_response(SECOND, &store), Ok(false));
    assert_eq!(save_service_response(&response(FIRST), &mut store), Ok(false));
    assert_eq!(save_response_with_request(&request(FIRST), &mut store), Ok(false));
    assert_eq!(save_response_with_request(&request(SECOND), &mut store), Ok(true));
    assert_eq!(save_service_response(&response(SECOND), &mut store), Ok(false));
    assert_eq!(check_application_response(SECOND, &store), Ok(true));
}

#[test]
fn store_keys_rows_by_the_id_not_by_its_spelling() {
    let mut store = ResponseStore::new();
    assert_eq!(save_response_with_request(&request(FIRST), &mut store), Ok(true));
    let upper = FIRST.to_uppercase();
    let simple = FIRST.replace('-', "");
    assert_eq!(check_application_response(&upper, &store), Ok(true));
    assert_eq!(check_application_response(&simple, &store), Ok(true));
    assert_eq!(save_service_response(&response(&simple), &mut store), Ok(false));
}

#[test]
fn store_refuses_what_it_cannot_key() {
    let mut store = ResponseStore::new();
    let complaint = uuid::Uuid::parse_str("nope").unwrap_err().to_string();
    assert_eq!(
        check_application_response("nope", &store),
        Err(CustomProjectErrors::DatabaseOperationError(complaint.clone()))
    );
    assert_eq!(
        save_service_response(&response("nope"), &mut store),
        Err(CustomProjectErrors::DatabaseTypeValidationError(complaint.clone()))
    );
    assert_eq!(
        save_response_with_request(&request("nope"), &mut store),
        Err(CustomProjectErrors::DatabaseTypeValidationError(complaint))
    );
    let mut stranger = request(FIRST);
    stranger.application.application_id = String::from("nobody");
    assert!(save_response_with_request(&stranger, &mut store).is_err());
    assert_eq!(check_application_response(FIRST, &store), Ok(false));
}

#[test]
fn store_answers_the_commands_that_concern_it() {
    let mut store = ResponseStore::new();
    let check = Command::CheckResponse(String::from(FIRST));
    assert_eq!(store.perform(&check), Some(Answer::Exists(false)));
    assert_eq!(
        store.perform(&Command::SaveTimeout(request(FIRST))),
        Some(Answer::Saved(true))
    );
    assert_eq!(store.perform(&check), Some(Answer::Exists(true)));
    assert_eq!(
        store.perform(&Command::SaveResponse(response(FIRST))),
        Some(Answer::Saved(false))
    );
    assert_eq!(
        store.perform(&Command::SaveResponse(response(SECOND))),
        Some(Answer::Saved(true))
    );
    assert_eq!(
        store.perform(&Command::SaveResponse(response("nope"))),
        Some(Answer::Saved(false))
    );
    assert_eq!(
        store.perform(&Command::SaveTimeout(request("nope"))),
        Some(Answer::Saved(false))
    );
    assert_eq!(
        store.perform(&Command::CheckResponse(String::from("nope"))),
        Some(Answer::Exists(false))
    );
    assert_eq!(store.perform(&Command::FindService(7)), None);
    assert_eq!(store.perform(&Command::SaveRequest(request(FIRST))), None);
}

#[test]
fn at_most_one_command_inserts_a_row_for_a_request() {
    let mut store = ResponseStore::new();
    let commands = vec![
        Command::CheckResponse(String::from(FIRST)),
        Command::SaveTimeout(request(SECOND)),
        Command::SaveResponse(response(FIRST)),
        Command::SaveTimeout(request(FIRST)),
        Command::SaveResponse(response(SECOND)),
        Command::SaveResponse(response(FIRST)),
        Command::SaveTimeout(request(FIRST)),
    ];
    let mut first = 0;
    let mut second = 0;
    for command in &commands {
        if store.perform(command) == Some(Answer::Saved(true)) {
            match command {
                Command::SaveTimeout(request) if request.service_info.serhub_request_id == FIRST => {
                    first += 1
                }
                Command::SaveResponse(response) if response.serhub_request_id == FIRST => {
                    first += 1
                }
                _ => second += 1,
            }
        }
    }
    assert_eq!(first, 1);
    assert_eq!(second, 1);
}

#[test]
fn response_key_is_the_id_as_a_number() {
    assert_eq!(response_key(FIRST), Ok(0x11111111_1111_4111_8111_111111111111));
    assert_eq!(response_key(&FIRST.to_uppercase()), response_key(FIRST));
    assert_eq!(
        response_key("a1a2a3a4b1b2c1c2d1d2d3d4d5d6d7d8"),
        Ok(0xa1a2a3a4b1b2c1c2d1d2d3d4d5d6d7d8)
    );
    let complaint = uuid::Uuid::parse_str("nope").unwrap_err().to_string();
    assert_eq!(
        response_key("nope"),
        Err(CustomProjectErrors::DatabaseOperationError(complaint))
    );
}
