//! The rows that the hub writes to its store, made from the messages it
//! handles. The store keys its rows by UUID, so a message whose ids do not
//! write UUIDs has no row.

use crate::errors::{CustomProjectErrors, ErrorView};
use crate::mapping::schemas::{
    MappedError, MappedErrorView, Request, RequestView, RmqTarget, RmqTargetView, ServiceResponse,
    ServiceResponseView,
};
use crate::outside::{clone_json, parse_uuid, uuid_parse};
use serde_json::Value as AnyJsonValue;
use vstd::prelude::*;
use vstd::std_specs::convert::TryFromSpecImpl;

verus! {

/// The two ids of a message as numbers, or the error that the first id that
/// writes no UUID gives.
pub open spec fn row_ids(application_id: Seq<char>, serhub_request_id: Seq<char>) -> Result<
    (u128, u128),
    ErrorView,
> {
    match uuid_parse(application_id) {
        Err(complaint) => Err(ErrorView::DatabaseTypeValidationError(complaint)),
        Ok(application) => match uuid_parse(serhub_request_id) {
            Err(complaint) => Err(ErrorView::DatabaseTypeValidationError(complaint)),
            Ok(request) => Ok((application, request)),
        },
    }
}

/// Reads the two ids of a message.
fn parse_row_ids(application_id: &str, serhub_request_id: &str) -> (ids: Result<
    (u128, u128),
    CustomProjectErrors,
>)
    ensures
        match ids {
            Ok(pair) => row_ids(application_id@, serhub_request_id@) == Ok::<
                (u128, u128),
                ErrorView,
            >(pair),
            Err(error) => row_ids(application_id@, serhub_request_id@) == Err::<
                (u128, u128),
                ErrorView,
            >(error@),
        },
{
    let application = match parse_uuid(application_id) {
        Ok(id) => id,
        Err(complaint) => {
            return Err(CustomProjectErrors::DatabaseTypeValidationError(complaint));
        },
    };
    let request = match parse_uuid(serhub_request_id) {
        Ok(id) => id,
        Err(complaint) => {
            return Err(CustomProjectErrors::DatabaseTypeValidationError(complaint));
        },
    };
    Ok((application, request))
}

/// The row that records a request. The request itself is written beside it,
/// as text, by whoever performs the insert.
#[derive(Debug, Clone, Copy, PartialEq, Eq, Structural)]
pub struct SqlRequest {
    pub application_id: u128,
    pub serhub_request_id: u128,
    pub service_id: i32,
    pub system_id: i32,
}

impl SqlRequest {
    /// The row of `request`, or why it has none.
    pub open spec fn of(request: RequestView) -> Result<SqlRequest, ErrorView> {
        match row_ids(request.application.application_id, request.service_info.serhub_request_id) {
            Err(error) => Err(error),
            Ok(ids) => Ok(
                SqlRequest {
                    application_id: ids.0,
                    serhub_request_id: ids.1,
                    service_id: request.application.service_id,
                    system_id: request.application.system_id,
                },
            ),
        }
    }
}

impl TryFromSpecImpl<&Request> for SqlRequest {
    /// The result is stated over views, by `SqlRequest::of`.
    open spec fn obeys_try_from_spec() -> bool {
        false
    }

    open spec fn try_from_spec(value: &Request) -> Result<Self, CustomProjectErrors> {
        arbitrary()
    }
}

impl TryFrom<&Request> for SqlRequest {
    type Error = CustomProjectErrors;

    fn try_from(value: &Request) -> (row: Result<Self, CustomProjectErrors>)
        ensures
            match row {
                Ok(row) => SqlRequest::of(value@) == Ok::<SqlRequest, ErrorView>(row),
                Err(error) => SqlRequest::of(value@) == Err::<SqlRequest, ErrorView>(
                    error@,
                ),
            },
    {
        let ids = parse_row_ids(
            value.application.application_id.as_str(),
            value.service_info.serhub_request_id.as_str(),
        );
        match ids {
            Err(error) => Err(error),
            Ok(ids) => Ok(
                SqlRequest {
                    application_id: ids.0,
                    serhub_request_id: ids.1,
                    service_id: value.application.service_id,
                    system_id: value.application.system_id,
                },
            ),
        }
    }
}

/// The row that records a response.
#[derive(Debug, PartialEq)]
pub struct ServiceSqlResponse {
    pub application_id: u128,
    pub serhub_request_id: u128,
    pub service_id: i32,
    pub system_id: i32,
    pub is_cache: bool,
    pub status: String,
    pub status_description: Vec<String>,
    pub response: Option<AnyJsonValue>,
    pub target: RmqTarget,
}

/// A response row, as the contracts speak of it.
pub struct ServiceSqlResponseView {
    pub application_id: u128,
    pub serhub_request_id: u128,
    pub service_id: i32,
    pub system_id: i32,
    pub is_cache: bool,
    pub status: Seq<char>,
    pub status_description: Seq<Seq<char>>,
    pub response: Option<AnyJsonValue>,
    pub target: RmqTargetView,
}

impl View for ServiceSqlResponse {
    type V = ServiceSqlResponseView;

    open spec fn view(&self) -> ServiceSqlResponseView {
        ServiceSqlResponseView {
            application_id: self.application_id,
            serhub_request_id: self.serhub_request_id,
            service_id: self.service_id,
            system_id: self.system_id,
            is_cache: self.is_cache,
            status: self.status@,
            status_description: self.status_description.deep_view(),
            response: self.response,
            target: self.target@,
        }
    }
}

impl ServiceSqlResponseView {
    /// The row of `response`, or why it has none.
    pub open spec fn of(response: ServiceResponseView) -> Result<
        ServiceSqlResponseView,
        ErrorView,
    > {
        match row_ids(response.application_id, response.serhub_request_id) {
            Err(error) => Err(error),
            Ok(ids) => Ok(
                ServiceSqlResponseView {
                    application_id: ids.0,
                    serhub_request_id: ids.1,
                    service_id: response.service_id,
                    system_id: response.system_id,
                    is_cache: response.is_cache,
                    status: response.status,
                    status_description: response.status_description,
                    response: response.response,
                    target: response.target,
                },
            ),
        }
    }
}

impl TryFromSpecImpl<&ServiceResponse> for ServiceSqlResponse {
    /// The result is stated over views, by `ServiceSqlResponseView::of`.
    open spec fn obeys_try_from_spec() -> bool {
        false
    }

    open spec fn try_from_spec(value: &ServiceResponse) -> Result<Self, CustomProjectErrors> {
        arbitrary()
    }
}

impl TryFrom<&ServiceResponse> for ServiceSqlResponse {
    type Error = CustomProjectErrors;

    fn try_from(value: &ServiceResponse) -> (row: Result<Self, CustomProjectErrors>)
        ensures
            match row {
                Ok(row) => ServiceSqlResponseView::of(value@) == Ok::<
                    ServiceSqlResponseView,
                    ErrorView,
                >(row@),
                Err(error) => ServiceSqlResponseView::of(value@) == Err::<
                    ServiceSqlResponseView,
                    ErrorView,
                >(error@),
            },
    {
        let ids = parse_row_ids(value.application_id.as_str(), value.serhub_request_id.as_str());
        match ids {
            Err(error) => Err(error),
            Ok(ids) => Ok(
                ServiceSqlResponse {
                    application_id: ids.0,
                    serhub_request_id: ids.1,
                    service_id: value.service_id,
                    system_id: value.system_id,
                    is_cache: value.is_cache,
                    status: value.status.clone(),
                    status_description: value.status_description.clone(),
                    response: match &value.response {
                        Some(payload) => Some(clone_json(payload)),
                        None => None,
                    },
                    target: value.target.clone(),
                },
            ),
        }
    }
}

/// The row that records a failure.
#[derive(Debug, PartialEq)]
pub struct SqlMappedError {
    pub application_id: u128,
    pub serhub_request_id: u128,
    pub service_id: i32,
    pub system_id: i32,
    pub error_type: Option<String>,
    pub error_message: Option<String>,
    pub error_traceback: Option<String>,
    /// What came with the failure; an absent value is written as JSON `null`.
    pub data: Option<AnyJsonValue>,
}

/// A failure row, as the contracts speak of it.
pub struct SqlMappedErrorView {
    pub application_id: u128,
    pub serhub_request_id: u128,
    pub service_id: i32,
    pub system_id: i32,
    pub error_type: Option<Seq<char>>,
    pub error_message: Option<Seq<char>>,
    pub error_traceback: Option<Seq<char>>,
    pub data: Option<AnyJsonValue>,
}

impl View for SqlMappedError {
    type V = SqlMappedErrorView;

    open spec fn view(&self) -> SqlMappedErrorView {
        SqlMappedErrorView {
            application_id: self.application_id,
            serhub_request_id: self.serhub_request_id,
            service_id: self.service_id,
            system_id: self.system_id,
            error_type: self.error_type.deep_view(),
            error_message: self.error_message.deep_view(),
            error_traceback: self.error_traceback.deep_view(),
            data: self.data,
        }
    }
}

impl SqlMappedErrorView {
    /// The row of `record`, or why it has none.
    pub open spec fn of(record: MappedErrorView) -> Result<
        SqlMappedErrorView,
        ErrorView,
    > {
        match row_ids(record.application_id, record.serhub_request_id) {
            Err(error) => Err(error),
            Ok(ids) => Ok(
                SqlMappedErrorView {
                    application_id: ids.0,
                    serhub_request_id: ids.1,
                    service_id: record.service_id,
                    system_id: record.system_id,
                    error_type: record.error_type,
                    error_message: record.error_message,
                    error_traceback: record.error_traceback,
                    data: record.data,
                },
            ),
        }
    }
}

impl TryFromSpecImpl<&MappedError> for SqlMappedError {
    /// The result is stated over views, by `SqlMappedErrorView::of`.
    open spec fn obeys_try_from_spec() -> bool {
        false
    }

    open spec fn try_from_spec(value: &MappedError) -> Result<Self, CustomProjectErrors> {
        arbitrary()
    }
}

impl TryFrom<&MappedError> for SqlMappedError {
    type Error = CustomProjectErrors;

    fn try_from(value: &MappedError) -> (row: Result<Self, CustomProjectErrors>)
        ensures
            match row {
                Ok(row) => SqlMappedErrorView::of(value@) == Ok::<
                    SqlMappedErrorView,
                    ErrorView,
                >(row@),
                Err(error) => SqlMappedErrorView::of(value@) == Err::<
                    SqlMappedErrorView,
                    ErrorView,
                >(error@),
            },
    {
        let ids = parse_row_ids(value.application_id.as_str(), value.serhub_request_id.as_str());
        match ids {
            Err(error) => Err(error),
            Ok(ids) => Ok(
                SqlMappedError {
                    application_id: ids.0,
                    serhub_request_id: ids.1,
                    service_id: value.service_id,
                    system_id: value.system_id,
                    error_type: value.error_type.clone(),
                    error_message: value.error_message.clone(),
                    error_traceback: value.error_traceback.clone(),
                    data: match &value.data {
                        Some(payload) => Some(clone_json(payload)),
                        None => None,
                    },
                },
            ),
        }
    }
}

} // verus!
