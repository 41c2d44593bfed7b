//! Field rules for incoming requests.

use crate::configs::{id_list, Config};
use crate::outside::{parse_uuid, uuid_value};
use crate::text::{is_blank, trim};
use vstd::prelude::*;

verus! {

/// Why a field was refused.
#[derive(Debug, PartialEq)]
pub struct ValidationError {
    /// The rule that the field broke.
    pub code: String,
    pub message: Option<String>,
}

impl ValidationError {
    /// An error that names the broken rule and says nothing more.
    pub fn new(code: &'static str) -> (error: Self)
        ensures
            error.code@ == code@,
            error.message is None,
    {
        ValidationError { code: code.to_owned(), message: None }
    }
}

/// Whether `ids` holds `id`.
pub fn contains_id(ids: &Vec<i32>, id: i32) -> (found: bool)
    ensures
        found == ids@.contains(id),
{
    let mut i: usize = 0;
    while i < ids.len()
        invariant
            i <= ids.len(),
            forall|k: int| 0 <= k < i ==> ids@[k] != id,
        decreases ids.len() - i,
    {
        if ids[i] == id {
            return true;
        }
        i = i + 1;
    }
    false
}

/// Accepts a text that holds more than blanks.
pub fn validate_not_empty(value: &str) -> (outcome: Result<(), ValidationError>)
    ensures
        outcome is Ok <==> trim(value@).len() > 0,
        outcome matches Err(error) ==> error.code@ == "Value not given"@ && error.message is None,
{
    if is_blank(value) {
        return Err(ValidationError::new("Value not given"));
    }
    Ok(())
}

/// Accepts a text that writes a UUID.
pub fn validate_uuid_value(value: &str) -> (outcome: Result<(), ValidationError>)
    ensures
        outcome is Ok <==> uuid_value(value@) is Some,
        outcome matches Err(error) ==> error.code@ == "Incoming value isn't a Uuid"@
            && error.message is None,
{
    let parsed = parse_uuid(value);
    if parsed.is_err() {
        return Err(ValidationError::new("Incoming value isn't a Uuid"));
    }
    Ok(())
}

/// Accepts the id of a service that the settings allow. The list of allowed
/// services must be well formed.
pub fn validate_incoming_service_id(service_id: i32, config: &Config) -> (outcome: Result<
    (),
    ValidationError,
>)
    requires
        id_list(config.available_services@) is Some,
    ensures
        outcome is Ok <==> config.services().contains(service_id),
        outcome matches Err(error) ==> error.code@ == "Service ID is not available"@
            && error.message is None,
{
    if !contains_id(&config.get_available_services(), service_id) {
        return Err(ValidationError::new("Service ID is not available"));
    }
    Ok(())
}

/// Accepts the id of a calling system that the settings allow. The list of
/// allowed systems must be well formed.
pub fn validate_incoming_system_id(system_id: i32, config: &Config) -> (outcome: Result<
    (),
    ValidationError,
>)
    requires
        id_list(config.available_users@) is Some,
    ensures
        outcome is Ok <==> config.systems().contains(system_id),
        outcome matches Err(error) ==> error.code@ == "System ID is not available"@
            && error.message is None,
{
    if !contains_id(&config.get_available_systems(), system_id) {
        return Err(ValidationError::new("System ID is not available"));
    }
    Ok(())
}

} // verus!
