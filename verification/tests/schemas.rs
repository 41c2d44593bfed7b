use servicehub::configs::Config;
use servicehub::database::functions::schemas::{ServiceSqlResponse, SqlMappedError, SqlRequest};
use servicehub::database::models::Services;
use servicehub::errors::CustomProjectErrors;
use servicehub::mapping::schemas::{
    Application, BaseRequest, IncomingServiceInfo, MappedError, Request, RmqTarget, ServiceInfo,
    ServiceResponse,
};

const CALLER: &str = "a1a2a3a4-b1b2-c1c2-d1d2-d3d4d5d6d7d8";
const REQUEST: &str = "00000000-0000-4000-8000-00000000002a";

fn person() -> serde_json::Value {
    let mut fields = serde_json::Map::new();
    fields.insert(String::from("name"), serde_json::Value::String(String::from("Ada")));
    fields.insert(String::from("age"), serde_json::Value::from(36));
    serde_json::Value::Object(fields)
}

fn target() -> RmqTarget {
    RmqTarget {
        vhost: String::from("/"),
        exchange: String::from("client.ex"),
        routing_key: String::from("client.rk"),
        queue: Some(String::from("client.q")),
    }
}

fn registry_row() -> Services {
    Services {
        id: 7,
        name: String::from("billing"),
        exchange: String::from("billing"),
        queue: String::from("billing.q"),
        routing_key: String::from("billing.create"),
        cache_fields: String::from(" name ,, age , "),
        cache_expiration: Some(String::from("1h")),
        timeout: 5,
    }
}

fn request() -> Request {
    let base = BaseRequest {
        application: Application {
            application_id: String::from(CALLER),
            service_id: 7,
            system_id: 1,
            multi_request: true,
        },
        person: person(),
        service_info: None,
        target: target(),
    };
    let info = IncomingServiceInfo::from_service(registry_row(), 1700000000, String::from(REQUEST));
    Request::new(base, ServiceInfo::from(info))
}

#[test]
fn enrichment_takes_its_fields_from_the_registry() {
    let info = IncomingServiceInfo::from_service(registry_row(), 42, String::from(REQUEST));
    assert_eq!(info.timestamp_received, 42);
    assert_eq!(info.service_timeout, Some(5));
    assert_eq!(info.serhub_request_id, REQUEST);
    assert_eq!(info.cached_fields, " name ,, age , ");
    assert_eq!(info.cache_expiration, Some(String::from("1h")));
    assert_eq!(info.exchange, Some(String::from("billing")));
    assert_eq!(info.routing_key, Some(String::from("billing.create")));
}

#[test]
fn enrichment_keeps_the_low_bits_of_the_timeout() {
    let mut row = registry_row();
    row.timeout = 65535;
    let info = IncomingServiceInfo::from_service(row, 0, String::new());
    assert_eq!(info.service_timeout, Some(65535));
    let mut row = registry_row();
    row.timeout = 65536 + 9;
    let info = IncomingServiceInfo::from_service(row, 0, String::new());
    assert_eq!(info.service_timeout, Some(9));
    let mut row = registry_row();
    row.timeout = -1;
    let info = IncomingServiceInfo::from_service(row, 0, String::new());
    assert_eq!(info.service_timeout, Some(65535));
}

#[test]
fn enrichment_from_a_registry_row_is_stamped_now() {
    let first = IncomingServiceInfo::from(registry_row());
    let second = IncomingServiceInfo::from(registry_row());
    assert!(uuid::Uuid::parse_str(&first.serhub_request_id).is_ok());
    assert_ne!(first.serhub_request_id, second.serhub_request_id);
    assert!(first.timestamp_received > 1_600_000_000);
    assert_eq!(first.service_timeout, Some(5));
    assert_eq!(first.exchange, Some(String::from("billing")));
    assert_eq!(first.routing_key, Some(String::from("billing.create")));
    assert_eq!(first.cached_fields, " name ,, age , ");
    assert_eq!(first.cache_expiration, Some(String::from("1h")));
}

#[test]
fn default_enrichment_names_no_service() {
    let info = IncomingServiceInfo::default();
    assert!(uuid::Uuid::parse_str(&info.serhub_request_id).is_ok());
    assert_eq!(info.service_timeout, None);
    assert_eq!(info.cached_fields, "");
    assert_eq!(info.cache_expiration, None);
    assert_eq!(info.exchange, None);
    assert_eq!(info.routing_key, None);
}

#[test]
fn final_enrichment_lists_the_cache_fields() {
    let info = IncomingServiceInfo::from_service(registry_row(), 42, String::from(REQUEST));
    let info = ServiceInfo::from(info);
    assert_eq!(info.timestamp_received, 42);
    assert_eq!(info.service_timeout, 5);
    assert_eq!(info.serhub_request_id, REQUEST);
    assert_eq!(info.cache_fields, vec!["name", "age"]);
    assert_eq!(info.cache_expiration, Some(String::from("1h")));
    assert_eq!(info.exchange, "billing");
    assert_eq!(info.routing_key, "billing.create");
    assert!(info.validate().is_ok());
}

#[test]
fn final_enrichment_fills_what_is_absent() {
    let info = ServiceInfo::from(IncomingServiceInfo {
        timestamp_received: 7,
        service_timeout: None,
        serhub_request_id: String::from("x"),
        cached_fields: String::new(),
        cache_expiration: None,
        exchange: None,
        routing_key: None,
    });
    assert_eq!(info.service_timeout, 0);
    assert_eq!(info.cache_fields, Vec::<String>::new());
    assert_eq!(info.exchange, "");
    assert_eq!(info.routing_key, "");
    assert_eq!(
        info.validate(),
        Err(vec![
            String::from("exchange: Value not given"),
            String::from("routing_key: Value not given"),
        ])
    );
}

#[test]
fn enrichment_without_a_routing_key_is_invalid() {
    let mut row = registry_row();
    row.routing_key = String::from(" ");
    let info = ServiceInfo::from(IncomingServiceInfo::from_service(row, 0, String::new()));
    assert_eq!(info.validate(), Err(vec![String::from("routing_key: Value not given")]));
}

#[test]
fn application_is_checked_field_by_field() {
    let config = Config::from_empty_env();
    let mut application = Application {
        application_id: String::from(CALLER),
        service_id: 1,
        system_id: 1,
        multi_request: false,
    };
    assert_eq!(application.validate(&config), Ok(()));
    application.system_id = 2;
    assert_eq!(
        application.validate(&config),
        Err(vec![String::from("system_id: System ID is not available")])
    );
    application.application_id = String::from("Foo");
    application.service_id = 999;
    assert_eq!(
        application.validate(&config),
        Err(vec![
            String::from("application_id: Incoming value isn't a Uuid"),
            String::from("service_id: Service ID is not available"),
            String::from("system_id: System ID is not available"),
        ])
    );
    assert_eq!(
        Application::default(),
        Application {
            application_id: String::new(),
            service_id: 0,
            system_id: 0,
            multi_request: false
        }
    );
}

#[test]
fn request_takes_everything_from_its_parts() {
    let request = request();
    assert_eq!(request.application.application_id, CALLER);
    assert_eq!(request.application.service_id, 7);
    assert_eq!(request.application.system_id, 1);
    assert!(request.application.multi_request);
    assert_eq!(request.person, person());
    assert_eq!(request.target, target());
    assert_eq!(request.service_info.serhub_request_id, REQUEST);
    assert_eq!(request.service_info.timestamp_received, 1700000000);
}

#[test]
fn copies_are_equal_to_their_originals() {
    let request = request();
    assert_eq!(request.clone(), request);
    let response = ServiceResponse {
        response: Some(person()),
        ..ServiceResponse::generate_response_at(
            &request,
            Some(true),
            String::from("Ok"),
            vec![String::from("done")],
            String::from("now"),
        )
    };
    assert_eq!(response.clone(), response);
    let record = MappedError {
        data: Some(person()),
        error_traceback: Some(String::from("at line 1")),
        ..MappedError::generate_error_response(&request, String::from("m"), String::from("t"))
    };
    assert_eq!(record.clone(), record);
    assert_eq!(target().clone(), target());
    assert_eq!(request.service_info.clone(), request.service_info);
    assert_eq!(request.application.clone(), request.application);
}

#[test]
fn generated_response_answers_the_request() {
    let request = request();
    let response = ServiceResponse::generate_response_at(
        &request,
        None,
        String::from("ServiceTimeout"),
        vec![String::from("service_timeout")],
        String::from("2024-05-01 10:00:00 +00:00"),
    );
    assert_eq!(response.application_id, CALLER);
    assert_eq!(response.serhub_request_id, REQUEST);
    assert_eq!(response.service_id, 7);
    assert_eq!(response.system_id, 1);
    assert!(!response.is_cache);
    assert_eq!(response.status, "ServiceTimeout");
    assert_eq!(response.status_description, vec!["service_timeout"]);
    assert_eq!(response.response_created_time, "2024-05-01 10:00:00 +00:00");
    assert_eq!(response.response, None);
    assert_eq!(response.target, target());

    let cached = ServiceResponse::generate_response(&request, Some(true), String::new(), vec![]);
    assert!(cached.is_cache);
    assert!(!cached.response_created_time.is_empty());
    assert_eq!(cached.serhub_request_id, REQUEST);
    assert_eq!(cached.target, target());
}

#[test]
fn default_response_answers_nobody() {
    let response = ServiceResponse::default();
    assert_eq!(response.application_id, "");
    assert_eq!(response.serhub_request_id, "");
    assert_eq!(response.service_id, 0);
    assert_eq!(response.system_id, 0);
    assert!(!response.is_cache);
    assert_eq!(response.status, "");
    assert!(response.status_description.is_empty());
    assert!(!response.response_created_time.is_empty());
    assert_eq!(response.response, None);
    assert_eq!(response.target, RmqTarget::default());
    assert_eq!(RmqTarget::default().queue, None);
    assert_eq!(RmqTarget::default().exchange, "");
}

#[test]
fn generated_failure_record_names_the_request() {
    let record = MappedError::generate_error_response(
        &request(),
        String::from("ServiceTimeout"),
        String::from("Service"),
    );
    assert_eq!(record.application_id, CALLER);
    assert_eq!(record.serhub_request_id, REQUEST);
    assert_eq!(record.service_id, 7);
    assert_eq!(record.system_id, 1);
    assert_eq!(record.error_message, Some(String::from("ServiceTimeout")));
    assert_eq!(record.error_type, Some(String::from("Service")));
    assert_eq!(record.error_traceback, None);
    assert_eq!(record.data, None);
}

#[test]
fn request_row_holds_the_ids_as_numbers() {
    let row = SqlRequest::try_from(&request()).unwrap();
    assert_eq!(row.application_id, 0xa1a2a3a4b1b2c1c2d1d2d3d4d5d6d7d8);
    assert_eq!(row.serhub_request_id, 0x0000000000004000800000000000002a);
    assert_eq!(row.service_id, 7);
    assert_eq!(row.system_id, 1);
}

#[test]
fn message_without_uuids_has_no_row() {
    let mut bad_caller = request();
    bad_caller.application.application_id = String::from("Foo");
    let expected = uuid::Uuid::parse_str("Foo").unwrap_err().to_string();
    assert_eq!(
        SqlRequest::try_from(&bad_caller),
        Err(CustomProjectErrors::DatabaseTypeValidationError(expected))
    );
    let mut bad_request = request();
    bad_request.service_info.serhub_request_id = String::from("1234");
    let expected = uuid::Uuid::parse_str("1234").unwrap_err().to_string();
    assert_eq!(
        SqlRequest::try_from(&bad_request),
        Err(CustomProjectErrors::DatabaseTypeValidationError(expected))
    );
    let mut both = request();
    both.application.application_id = String::from("Foo");
    both.service_info.serhub_request_id = String::from("1234");
    let expected = uuid::Uuid::parse_str("Foo").unwrap_err().to_string();
    assert_eq!(
        SqlRequest::try_from(&both),
        Err(CustomProjectErrors::DatabaseTypeValidationError(expected))
    );
}

#[test]
fn response_row_holds_the_response() {
    let request = request();
    let response = ServiceResponse {
        response: Some(person()),
        ..ServiceResponse::generate_response_at(
            &request,
            Some(true),
            String::from("Ok"),
            vec![String::from("done"), String::from("fast")],
            String::from("now"),
        )
    };
    let row = ServiceSqlResponse::try_from(&response).unwrap();
    assert_eq!(row.application_id, 0xa1a2a3a4b1b2c1c2d1d2d3d4d5d6d7d8);
    assert_eq!(row.serhub_request_id, 0x2a + (0x4000_8000u128 << 48));
    assert_eq!(row.service_id, 7);
    assert_eq!(row.system_id, 1);
    assert!(row.is_cache);
    assert_eq!(row.status, "Ok");
    assert_eq!(row.status_description, vec!["done", "fast"]);
    assert_eq!(row.response, Some(person()));
    assert_eq!(row.target, target());

    let mut unkeyed = response.clone();
    unkeyed.serhub_request_id = String::from("zz");
    let expected = uuid::Uuid::parse_str("zz").unwrap_err().to_string();
    assert_eq!(
        ServiceSqlResponse::try_from(&unkeyed),
        Err(CustomProjectErrors::DatabaseTypeValidationError(expected))
    );
}

#[test]
fn failure_row_holds_the_record() {
    let record = MappedError {
        data: Some(person()),
        error_traceback: Some(String::from("at line 1")),
        ..MappedError::generate_error_response(
            &request(),
            String::from("ServiceTimeout"),
            String::from("Service"),
        )
    };
    let row = SqlMappedError::try_from(&record).unwrap();
    assert_eq!(row.application_id, 0xa1a2a3a4b1b2c1c2d1d2d3d4d5d6d7d8);
    assert_eq!(row.serhub_request_id, 0x0000000000004000800000000000002a);
    assert_eq!(row.service_id, 7);
    assert_eq!(row.system_id, 1);
    assert_eq!(row.error_type, Some(String::from("Service")));
    assert_eq!(row.error_message, Some(String::from("ServiceTimeout")));
    assert_eq!(row.error_traceback, Some(String::from("at line 1")));
    assert_eq!(row.data, Some(person()));

    let mut unkeyed = record.clone();
    unkeyed.application_id = String::new();
    let expected = uuid::Uuid::parse_str("").unwrap_err().to_string();
    assert_eq!(
        SqlMappedError::try_from(&unkeyed),
        Err(CustomProjectErrors::DatabaseTypeValidationError(expected))
    );
}
