//! The shapes of the messages that travel through the hub, each with the
//! mathematical value that the contracts speak of.

use crate::configs::Config;
use crate::database::models::services::{Services, ServicesView};
use crate::mapping::validators::{
    validate_incoming_service_id, validate_incoming_system_id, validate_not_empty,
    validate_uuid_value, ValidationError,
};
use crate::outside::{clone_json, fresh_uuid_text, local_now, uuid_value};
use crate::text::{split, split_trimmed, trim, trimmed_nonempty};
use serde_json::Value as AnyJsonValue;
use vstd::prelude::*;
use vstd::std_specs::convert::FromSpecImpl;

verus! {

/// The line that reports a broken rule: the field's name, then the rule.
pub open spec fn field_message(field: Seq<char>, code: Seq<char>) -> Seq<char> {
    field + ": "@ + code
}

fn field_message_text(field: &str, error: &ValidationError) -> (line: String)
    ensures
        line@ == field_message(field@, error.code@),
{
    let mut line = field.to_owned();
    line.append(": ");
    line.append(error.code.as_str());
    line
}

/// Who sends a request and which service it is for.
#[derive(Debug, PartialEq)]
pub struct Application {
    pub application_id: String,
    pub service_id: i32,
    pub system_id: i32,
    pub multi_request: bool,
}

/// An application, as the contracts speak of it.
pub struct ApplicationView {
    pub application_id: Seq<char>,
    pub service_id: i32,
    pub system_id: i32,
    pub multi_request: bool,
}

impl View for Application {
    type V = ApplicationView;

    open spec fn view(&self) -> ApplicationView {
        ApplicationView {
            application_id: self.application_id@,
            service_id: self.service_id,
            system_id: self.system_id,
            multi_request: self.multi_request,
        }
    }
}

impl ApplicationView {
    /// The rules that the application breaks, in the order of its fields:
    /// the id must write a UUID, and the service and the system must be on
    /// their allow-lists.
    pub open spec fn problems(self, services: Seq<i32>, systems: Seq<i32>) -> Seq<Seq<char>> {
        let id = if uuid_value(self.application_id) is Some {
            Seq::<Seq<char>>::empty()
        } else {
            seq![field_message("application_id"@, "Incoming value isn't a Uuid"@)]
        };
        let service = if services.contains(self.service_id) {
            Seq::<Seq<char>>::empty()
        } else {
            seq![field_message("service_id"@, "Service ID is not available"@)]
        };
        let system = if systems.contains(self.system_id) {
            Seq::<Seq<char>>::empty()
        } else {
            seq![field_message("system_id"@, "System ID is not available"@)]
        };
        id + service + system
    }

    /// Whether the application breaks no rule.
    pub open spec fn valid(self, services: Seq<i32>, systems: Seq<i32>) -> bool {
        &&& uuid_value(self.application_id) is Some
        &&& services.contains(self.service_id)
        &&& systems.contains(self.system_id)
    }
}

impl Clone for Application {
    fn clone(&self) -> (copy: Self)
        ensures
            copy@ == self@,
    {
        Application {
            application_id: self.application_id.clone(),
            service_id: self.service_id,
            system_id: self.system_id,
            multi_request: self.multi_request,
        }
    }
}

impl Default for Application {
    fn default() -> (application: Self)
        ensures
            application@ == (ApplicationView {
                application_id: Seq::<char>::empty(),
                service_id: 0,
                system_id: 0,
                multi_request: false,
            }),
    {
        Application {
            application_id: String::new(),
            service_id: 0,
            system_id: 0,
            multi_request: false,
        }
    }
}

impl Application {
    /// Checks every field and reports all broken rules at once.
    pub fn validate(&self, config: &Config) -> (outcome: Result<(), Vec<String>>)
        requires
            config.wf(),
        ensures
            outcome is Ok <==> self@.valid(config.services(), config.systems()),
            outcome matches Err(lines) ==> lines.deep_view() == self@.problems(
                config.services(),
                config.systems(),
            ),
    {
        let mut lines: Vec<String> = Vec::new();
        let ghost id = if uuid_value(self.application_id@) is Some {
            Seq::<Seq<char>>::empty()
        } else {
            seq![field_message("application_id"@, "Incoming value isn't a Uuid"@)]
        };
        let ghost service = if config.services().contains(self.service_id) {
            Seq::<Seq<char>>::empty()
        } else {
            seq![field_message("service_id"@, "Service ID is not available"@)]
        };
        match validate_uuid_value(self.application_id.as_str()) {
            Ok(()) => {},
            Err(error) => {
                lines.push(field_message_text("application_id", &error));
            },
        }
        assert(lines.deep_view() =~= id);
        match validate_incoming_service_id(self.service_id, config) {
            Ok(()) => {},
            Err(error) => {
                lines.push(field_message_text("service_id", &error));
            },
        }
        assert(lines.deep_view() =~= id + service);
        match validate_incoming_system_id(self.system_id, config) {
            Ok(()) => {},
            Err(error) => {
                lines.push(field_message_text("system_id", &error));
            },
        }
        assert(lines.deep_view() =~= self@.problems(config.services(), config.systems()));
        if lines.len() == 0 {
            Ok(())
        } else {
            Err(lines)
        }
    }
}

/// A service as an operator describes it, every field as text.
#[derive(Debug, PartialEq)]
pub struct BaseService {
    pub id: u32,
    pub name: String,
    pub exchange: String,
    pub queue: String,
    pub routing_key: String,
    pub cache_fields: String,
    pub cache_expiration: String,
    pub timeout: String,
}

/// What the hub adds to a request when it takes it in, before the fields
/// are put into their final form.
#[derive(Debug, PartialEq)]
pub struct IncomingServiceInfo {
    /// Seconds since the Unix epoch at which the request was taken in.
    pub timestamp_received: i64,
    pub service_timeout: Option<u16>,
    /// The hub's own id for the request.
    pub serhub_request_id: String,
    pub cached_fields: String,
    pub cache_expiration: Option<String>,
    pub exchange: Option<String>,
    pub routing_key: Option<String>,
}

/// An enrichment in its first form, as the contracts speak of it.
pub struct IncomingServiceInfoView {
    pub timestamp_received: i64,
    pub service_timeout: Option<u16>,
    pub serhub_request_id: Seq<char>,
    pub cached_fields: Seq<char>,
    pub cache_expiration: Option<Seq<char>>,
    pub exchange: Option<Seq<char>>,
    pub routing_key: Option<Seq<char>>,
}

impl View for IncomingServiceInfo {
    type V = IncomingServiceInfoView;

    open spec fn view(&self) -> IncomingServiceInfoView {
        IncomingServiceInfoView {
            timestamp_received: self.timestamp_received,
            service_timeout: self.service_timeout,
            serhub_request_id: self.serhub_request_id@,
            cached_fields: self.cached_fields@,
            cache_expiration: self.cache_expiration.deep_view(),
            exchange: self.exchange.deep_view(),
            routing_key: self.routing_key.deep_view(),
        }
    }
}

impl IncomingServiceInfoView {
    /// What the hub adds to a request for `service` that it takes in at
    /// `timestamp_received` and names `serhub_request_id`. Only the low 16
    /// bits of the registry's timeout are kept.
    pub open spec fn of_service(
        service: ServicesView,
        timestamp_received: i64,
        serhub_request_id: Seq<char>,
    ) -> IncomingServiceInfoView {
        IncomingServiceInfoView {
            timestamp_received,
            service_timeout: Some(service.timeout as u16),
            serhub_request_id,
            cached_fields: service.cache_fields,
            cache_expiration: service.cache_expiration,
            exchange: Some(service.exchange),
            routing_key: Some(service.routing_key),
        }
    }
}

impl IncomingServiceInfo {
    /// The enrichment for a request to the service `value`, taken in at
    /// `timestamp_received` under the id `serhub_request_id`.
    pub fn from_service(
        value: Services,
        timestamp_received: i64,
        serhub_request_id: String,
    ) -> (info: Self)
        ensures
            info@ == IncomingServiceInfoView::of_service(
                value@,
                timestamp_received,
                serhub_request_id@,
            ),
    {
        IncomingServiceInfo {
            timestamp_received,
            service_timeout: Some(#[verifier::truncate] (value.timeout as u16)),
            serhub_request_id,
            cached_fields: value.cache_fields,
            cache_expiration: value.cache_expiration,
            exchange: Some(value.exchange),
            routing_key: Some(value.routing_key),
        }
    }
}

impl Default for IncomingServiceInfo {
    /// An enrichment that names no service yet: it holds the time of the call
    /// and a fresh request id.
    fn default() -> (info: Self)
        ensures
            uuid_value(info.serhub_request_id@) is Some,
            info.service_timeout is None,
            info.cached_fields@ == Seq::<char>::empty(),
            info.cache_expiration is None,
            info.exchange is None,
            info.routing_key is None,
    {
        let (timestamp_received, _) = local_now();
        IncomingServiceInfo {
            timestamp_received,
            service_timeout: None,
            serhub_request_id: fresh_uuid_text(),
            cached_fields: String::new(),
            cache_expiration: None,
            exchange: None,
            routing_key: None,
        }
    }
}

impl FromSpecImpl<Services> for IncomingServiceInfo {
    /// The conversion reads the clock and draws a fresh id, so no function of
    /// the registry row alone gives its result.
    open spec fn obeys_from_spec() -> bool {
        false
    }

    open spec fn from_spec(value: Services) -> Self {
        arbitrary()
    }
}

impl From<Services> for IncomingServiceInfo {
    /// The enrichment for a request to the service `value`, taken in now
    /// under a fresh id.
    fn from(value: Services) -> (info: Self)
        ensures
            uuid_value(info.serhub_request_id@) is Some,
            info@ == IncomingServiceInfoView::of_service(
                value@,
                info.timestamp_received,
                info.serhub_request_id@,
            ),
    {
        let fresh = IncomingServiceInfo::default();
        IncomingServiceInfo::from_service(value, fresh.timestamp_received, fresh.serhub_request_id)
    }
}

/// What the hub adds to a request when it takes it in: when, under which id,
/// where the request goes, and how long the service has to answer.
#[derive(Debug, PartialEq)]
pub struct ServiceInfo {
    /// Seconds since the Unix epoch at which the request was taken in.
    pub timestamp_received: i64,
    /// Seconds the service is given to answer.
    pub service_timeout: u16,
    /// The hub's own id for the request.
    pub serhub_request_id: String,
    pub cache_fields: Vec<String>,
    pub cache_expiration: Option<String>,
    pub exchange: String,
    pub routing_key: String,
}

/// An enrichment, as the contracts speak of it.
pub struct ServiceInfoView {
    pub timestamp_received: i64,
    pub service_timeout: u16,
    pub serhub_request_id: Seq<char>,
    pub cache_fields: Seq<Seq<char>>,
    pub cache_expiration: Option<Seq<char>>,
    pub exchange: Seq<char>,
    pub routing_key: Seq<char>,
}

impl View for ServiceInfo {
    type V = ServiceInfoView;

    open spec fn view(&self) -> ServiceInfoView {
        ServiceInfoView {
            timestamp_received: self.timestamp_received,
            service_timeout: self.service_timeout,
            serhub_request_id: self.serhub_request_id@,
            cache_fields: self.cache_fields.deep_view(),
            cache_expiration: self.cache_expiration.deep_view(),
            exchange: self.exchange@,
            routing_key: self.routing_key@,
        }
    }
}

/// The names in a comma-separated list: each trimmed, the empty ones left out.
pub open spec fn cache_field_list(list: Seq<char>) -> Seq<Seq<char>> {
    trimmed_nonempty(split(list, ','))
}

impl ServiceInfoView {
    /// The final form of an enrichment: absent fields become zero or empty,
    /// and the cache fields become a list.
    pub open spec fn of_incoming(value: IncomingServiceInfoView) -> ServiceInfoView {
        ServiceInfoView {
            timestamp_received: value.timestamp_received,
            service_timeout: match value.service_timeout {
                Some(seconds) => seconds,
                None => 0,
            },
            serhub_request_id: value.serhub_request_id,
            cache_fields: cache_field_list(value.cached_fields),
            cache_expiration: value.cache_expiration,
            exchange: match value.exchange {
                Some(exchange) => exchange,
                None => Seq::<char>::empty(),
            },
            routing_key: match value.routing_key {
                Some(routing_key) => routing_key,
                None => Seq::<char>::empty(),
            },
        }
    }

    /// The rules that the enrichment breaks: the exchange and the routing
    /// key must each hold more than blanks.
    pub open spec fn problems(self) -> Seq<Seq<char>> {
        let exchange = if trim(self.exchange).len() > 0 {
            Seq::<Seq<char>>::empty()
        } else {
            seq![field_message("exchange"@, "Value not given"@)]
        };
        let routing_key = if trim(self.routing_key).len() > 0 {
            Seq::<Seq<char>>::empty()
        } else {
            seq![field_message("routing_key"@, "Value not given"@)]
        };
        exchange + routing_key
    }

    /// Whether the enrichment says where the request goes.
    pub open spec fn valid(self) -> bool {
        trim(self.exchange).len() > 0 && trim(self.routing_key).len() > 0
    }
}

impl FromSpecImpl<IncomingServiceInfo> for ServiceInfo {
    /// The result is stated over views, by `ServiceInfoView::of_incoming`.
    open spec fn obeys_from_spec() -> bool {
        false
    }

    open spec fn from_spec(value: IncomingServiceInfo) -> Self {
        arbitrary()
    }
}

impl From<IncomingServiceInfo> for ServiceInfo {
    fn from(value: IncomingServiceInfo) -> (info: Self)
        ensures
            info@ == ServiceInfoView::of_incoming(value@),
    {
        let cache_fields = split_trimmed(value.cached_fields.as_str(), ',');
        ServiceInfo {
            timestamp_received: value.timestamp_received,
            service_timeout: match value.service_timeout {
                Some(seconds) => seconds,
                None => 0,
            },
            serhub_request_id: value.serhub_request_id,
            cache_fields,
            cache_expiration: value.cache_expiration,
            exchange: match value.exchange {
                Some(exchange) => exchange,
                None => String::new(),
            },
            routing_key: match value.routing_key {
                Some(routing_key) => routing_key,
                None => String::new(),
            },
        }
    }
}

impl Clone for ServiceInfo {
    fn clone(&self) -> (copy: Self)
        ensures
            copy@ == self@,
    {
        ServiceInfo {
            timestamp_received: self.timestamp_received,
            service_timeout: self.service_timeout,
            serhub_request_id: self.serhub_request_id.clone(),
            cache_fields: self.cache_fields.clone(),
            cache_expiration: self.cache_expiration.clone(),
            exchange: self.exchange.clone(),
            routing_key: self.routing_key.clone(),
        }
    }
}

impl ServiceInfo {
    /// Checks every field and reports all broken rules at once.
    pub fn validate(&self) -> (outcome: Result<(), Vec<String>>)
        ensures
            outcome is Ok <==> self@.valid(),
            outcome matches Err(lines) ==> lines.deep_view() == self@.problems(),
    {
        let mut lines: Vec<String> = Vec::new();
        let ghost exchange = if trim(self.exchange@).len() > 0 {
            Seq::<Seq<char>>::empty()
        } else {
            seq![field_message("exchange"@, "Value not given"@)]
        };
        match validate_not_empty(self.exchange.as_str()) {
            Ok(()) => {},
            Err(error) => {
                lines.push(field_message_text("exchange", &error));
            },
        }
        assert(lines.deep_view() =~= exchange);
        match validate_not_empty(self.routing_key.as_str()) {
            Ok(()) => {},
            Err(error) => {
                lines.push(field_message_text("routing_key", &error));
            },
        }
        assert(lines.deep_view() =~= self@.problems());
        if lines.len() == 0 {
            Ok(())
        } else {
            Err(lines)
        }
    }
}

/// Where the final answer to a request must be published. The caller names
/// the place and the hub passes it on untouched.
#[derive(Debug, PartialEq)]
pub struct RmqTarget {
    pub vhost: String,
    pub exchange: String,
    pub routing_key: String,
    pub queue: Option<String>,
}

/// A reply target, as the contracts speak of it.
pub struct RmqTargetView {
    pub vhost: Seq<char>,
    pub exchange: Seq<char>,
    pub routing_key: Seq<char>,
    pub queue: Option<Seq<char>>,
}

impl View for RmqTarget {
    type V = RmqTargetView;

    open spec fn view(&self) -> RmqTargetView {
        RmqTargetView {
            vhost: self.vhost@,
            exchange: self.exchange@,
            routing_key: self.routing_key@,
            queue: self.queue.deep_view(),
        }
    }
}

impl RmqTargetView {
    /// A target that names no place.
    pub open spec fn empty() -> RmqTargetView {
        RmqTargetView {
            vhost: Seq::<char>::empty(),
            exchange: Seq::<char>::empty(),
            routing_key: Seq::<char>::empty(),
            queue: None,
        }
    }
}

impl Clone for RmqTarget {
    fn clone(&self) -> (copy: Self)
        ensures
            copy@ == self@,
    {
        RmqTarget {
            vhost: self.vhost.clone(),
            exchange: self.exchange.clone(),
            routing_key: self.routing_key.clone(),
            queue: self.queue.clone(),
        }
    }
}

impl Default for RmqTarget {
    fn default() -> (target: Self)
        ensures
            target@ == RmqTargetView::empty(),
    {
        RmqTarget {
            vhost: String::new(),
            exchange: String::new(),
            routing_key: String::new(),
            queue: None,
        }
    }
}

/// The least that a client request must hold for the hub to answer it: who
/// asks, and where the answer goes.
#[derive(Debug, PartialEq)]
pub struct ByPassRequest {
    pub application: Application,
    pub target: RmqTarget,
}

/// The least of a client request, as the contracts speak of it.
pub struct ByPassRequestView {
    pub application: ApplicationView,
    pub target: RmqTargetView,
}

impl View for ByPassRequest {
    type V = ByPassRequestView;

    open spec fn view(&self) -> ByPassRequestView {
        ByPassRequestView { application: self.application@, target: self.target@ }
    }
}

/// A client request as it arrives.
#[derive(Debug, PartialEq)]
pub struct BaseRequest {
    pub application: Application,
    /// The caller's payload, which the hub does not read.
    pub person: AnyJsonValue,
    pub service_info: Option<IncomingServiceInfo>,
    pub target: RmqTarget,
}

/// A client request, as the contracts speak of it.
pub struct BaseRequestView {
    pub application: ApplicationView,
    pub person: AnyJsonValue,
    pub service_info: Option<IncomingServiceInfoView>,
    pub target: RmqTargetView,
}

impl View for BaseRequest {
    type V = BaseRequestView;

    open spec fn view(&self) -> BaseRequestView {
        BaseRequestView {
            application: self.application@,
            person: self.person,
            service_info: match self.service_info {
                Some(info) => Some(info@),
                None => None,
            },
            target: self.target@,
        }
    }
}

/// A request that the hub has taken in and can send on to its service.
#[derive(Debug, PartialEq)]
pub struct Request {
    pub application: Application,
    /// The caller's payload, which the hub does not read.
    pub person: AnyJsonValue,
    pub service_info: ServiceInfo,
    pub target: RmqTarget,
}

/// A request, as the contracts speak of it.
pub struct RequestView {
    pub application: ApplicationView,
    pub person: AnyJsonValue,
    pub service_info: ServiceInfoView,
    pub target: RmqTargetView,
}

impl View for Request {
    type V = RequestView;

    open spec fn view(&self) -> RequestView {
        RequestView {
            application: self.application@,
            person: self.person,
            service_info: self.service_info@,
            target: self.target@,
        }
    }
}

impl RequestView {
    /// The request that a client request becomes under an enrichment.
    pub open spec fn of(
        base_request: BaseRequestView,
        service_info: ServiceInfoView,
    ) -> RequestView {
        RequestView {
            application: base_request.application,
            person: base_request.person,
            service_info,
            target: base_request.target,
        }
    }
}

impl Request {
    /// The request that a client request becomes under an enrichment.
    pub fn new(base_request: BaseRequest, service_info: ServiceInfo) -> (request: Self)
        ensures
            request@ == RequestView::of(base_request@, service_info@),
    {
        Request {
            application: base_request.application,
            person: base_request.person,
            service_info,
            target: base_request.target,
        }
    }
}

impl Clone for Request {
    fn clone(&self) -> (copy: Self)
        ensures
            copy@ == self@,
    {
        Request {
            application: self.application.clone(),
            person: clone_json(&self.person),
            service_info: self.service_info.clone(),
            target: self.target.clone(),
        }
    }
}

/// The final answer to a request, from its service or from the hub itself.
#[derive(Debug, PartialEq)]
pub struct ServiceResponse {
    pub application_id: String,
    pub serhub_request_id: String,
    pub service_id: i32,
    pub system_id: i32,
    pub is_cache: bool,
    /// A short code for the outcome.
    pub status: String,
    /// The reasons for the outcome, for a person to read.
    pub status_description: Vec<String>,
    pub response_created_time: String,
    pub response: Option<AnyJsonValue>,
    pub target: RmqTarget,
}

/// A response, as the contracts speak of it.
pub struct ServiceResponseView {
    pub application_id: Seq<char>,
    pub serhub_request_id: Seq<char>,
    pub service_id: i32,
    pub system_id: i32,
    pub is_cache: bool,
    pub status: Seq<char>,
    pub status_description: Seq<Seq<char>>,
    pub response_created_time: Seq<char>,
    pub response: Option<AnyJsonValue>,
    pub target: RmqTargetView,
}

impl View for ServiceResponse {
    type V = ServiceResponseView;

    open spec fn view(&self) -> ServiceResponseView {
        ServiceResponseView {
            application_id: self.application_id@,
            serhub_request_id: self.serhub_request_id@,
            service_id: self.service_id,
            system_id: self.system_id,
            is_cache: self.is_cache,
            status: self.status@,
            status_description: self.status_description.deep_view(),
            response_created_time: self.response_created_time@,
            response: self.response,
            target: self.target@,
        }
    }
}

impl ServiceResponseView {
    /// The answer that the hub itself gives to `request`: it names the
    /// request and its caller, goes where the caller asked, and holds no
    /// payload.
    pub open spec fn answer_to(
        request: RequestView,
        is_cache: Option<bool>,
        status: Seq<char>,
        status_description: Seq<Seq<char>>,
        response_created_time: Seq<char>,
    ) -> ServiceResponseView {
        ServiceResponseView {
            application_id: request.application.application_id,
            serhub_request_id: request.service_info.serhub_request_id,
            service_id: request.application.service_id,
            system_id: request.application.system_id,
            is_cache: match is_cache {
                Some(flag) => flag,
                None => false,
            },
            status,
            status_description,
            response_created_time,
            response: None,
            target: request.target,
        }
    }
}

impl Default for ServiceResponse {
    /// An answer to nobody, created now.
    fn default() -> (response: Self)
        ensures
            response@ == (ServiceResponseView {
                application_id: Seq::<char>::empty(),
                serhub_request_id: Seq::<char>::empty(),
                service_id: 0,
                system_id: 0,
                is_cache: false,
                status: Seq::<char>::empty(),
                status_description: Seq::<Seq<char>>::empty(),
                response_created_time: response.response_created_time@,
                response: None,
                target: RmqTargetView::empty(),
            }),
    {
        let status_description: Vec<String> = Vec::new();
        assert(status_description.deep_view() =~= Seq::<Seq<char>>::empty());
        let (_, response_created_time) = local_now();
        ServiceResponse {
            application_id: String::new(),
            serhub_request_id: String::new(),
            service_id: 0,
            system_id: 0,
            is_cache: false,
            status: String::new(),
            status_description,
            response_created_time,
            response: None,
            target: RmqTarget::default(),
        }
    }
}

impl ServiceResponse {
    /// The hub's own answer to `value`, created at `response_created_time`.
    pub fn generate_response_at(
        value: &Request,
        is_cache: Option<bool>,
        status: String,
        status_description: Vec<String>,
        response_created_time: String,
    ) -> (response: Self)
        ensures
            response@ == ServiceResponseView::answer_to(
                value@,
                is_cache,
                status@,
                status_description.deep_view(),
                response_created_time@,
            ),
    {
        ServiceResponse {
            application_id: value.application.application_id.clone(),
            serhub_request_id: value.service_info.serhub_request_id.clone(),
            service_id: value.application.service_id,
            system_id: value.application.system_id,
            is_cache: match is_cache {
                Some(flag) => flag,
                None => false,
            },
            status,
            status_description,
            response_created_time,
            response: None,
            target: value.target.clone(),
        }
    }

    /// The hub's own answer to `value`, created now.
    pub fn generate_response(
        value: &Request,
        is_cache: Option<bool>,
        status: String,
        status_description: Vec<String>,
    ) -> (response: Self)
        ensures
            response@ == ServiceResponseView::answer_to(
                value@,
                is_cache,
                status@,
                status_description.deep_view(),
                response.response_created_time@,
            ),
    {
        let (_, response_created_time) = local_now();
        ServiceResponse::generate_response_at(
            value,
            is_cache,
            status,
            status_description,
            response_created_time,
        )
    }
}

impl Clone for ServiceResponse {
    fn clone(&self) -> (copy: Self)
        ensures
            copy@ == self@,
    {
        ServiceResponse {
            application_id: self.application_id.clone(),
            serhub_request_id: self.serhub_request_id.clone(),
            service_id: self.service_id,
            system_id: self.system_id,
            is_cache: self.is_cache,
            status: self.status.clone(),
            status_description: self.status_description.clone(),
            response_created_time: self.response_created_time.clone(),
            response: match &self.response {
                Some(payload) => Some(clone_json(payload)),
                None => None,
            },
            target: self.target.clone(),
        }
    }
}

/// A failure record: what went wrong with which request.
#[derive(Debug, PartialEq)]
pub struct MappedError {
    pub application_id: String,
    pub serhub_request_id: String,
    pub service_id: i32,
    pub system_id: i32,
    pub error_type: Option<String>,
    pub error_message: Option<String>,
    pub error_traceback: Option<String>,
    pub data: Option<AnyJsonValue>,
}

/// A failure record, as the contracts speak of it.
pub struct MappedErrorView {
    pub application_id: Seq<char>,
    pub serhub_request_id: Seq<char>,
    pub service_id: i32,
    pub system_id: i32,
    pub error_type: Option<Seq<char>>,
    pub error_message: Option<Seq<char>>,
    pub error_traceback: Option<Seq<char>>,
    pub data: Option<AnyJsonValue>,
}

impl View for MappedError {
    type V = MappedErrorView;

    open spec fn view(&self) -> MappedErrorView {
        MappedErrorView {
            application_id: self.application_id@,
            serhub_request_id: self.serhub_request_id@,
            service_id: self.service_id,
            system_id: self.system_id,
            error_type: self.error_type.deep_view(),
            error_message: self.error_message.deep_view(),
            error_traceback: self.error_traceback.deep_view(),
            data: self.data,
        }
    }
}

impl MappedErrorView {
    /// The record of a failure of `request`, without traceback or data.
    pub open spec fn failure_of(
        request: RequestView,
        error_message: Seq<char>,
        error_type: Seq<char>,
    ) -> MappedErrorView {
        MappedErrorView {
            application_id: request.application.application_id,
            serhub_request_id: request.service_info.serhub_request_id,
            service_id: request.application.service_id,
            system_id: request.application.system_id,
            error_type: Some(error_type),
            error_message: Some(error_message),
            error_traceback: None,
            data: None,
        }
    }
}

impl MappedError {
    /// The record of a failure of `value`, without traceback or data.
    pub fn generate_error_response(
        value: &Request,
        error_message: String,
        error_type: String,
    ) -> (record: Self)
        ensures
            record@ == MappedErrorView::failure_of(value@, error_message@, error_type@),
    {
        MappedError {
            application_id: value.application.application_id.clone(),
            serhub_request_id: value.service_info.serhub_request_id.clone(),
            service_id: value.application.service_id,
            system_id: value.application.system_id,
            error_type: Some(error_type),
            error_message: Some(error_message),
            error_traceback: None,
            data: None,
        }
    }
}

impl Clone for MappedError {
    fn clone(&self) -> (copy: Self)
        ensures
            copy@ == self@,
    {
        MappedError {
            application_id: self.application_id.clone(),
            serhub_request_id: self.serhub_request_id.clone(),
            service_id: self.service_id,
            system_id: self.system_id,
            error_type: self.error_type.clone(),
            error_message: self.error_message.clone(),
            error_traceback: self.error_traceback.clone(),
            data: match &self.data {
                Some(payload) => Some(clone_json(payload)),
                None => None,
            },
        }
    }
}

} // verus!
