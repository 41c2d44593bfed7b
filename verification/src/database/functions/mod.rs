//! What the hub does with its response store, and a store in memory that
//! does it.
//!
//! The response store holds at most one row for each request id, and the
//! first writer wins: a row is inserted only where none is there yet. That
//! is what lets a service's response and the hub's own timeout race for a
//! request without the caller ever hearing from both.

pub mod schemas;

use crate::database::functions::schemas::{row_ids, ServiceSqlResponse, SqlRequest};
use crate::errors::{CustomProjectErrors, ErrorView};
use crate::mapping::schemas::{Request, ServiceResponse};
use crate::outside::{parse_uuid, uuid_parse};
use crate::tasks::protocol::{Answer, AnswerView, Command, CommandView};
use vstd::prelude::*;

verus! {

/// How the response store answers a command: what it holds afterwards, and
/// what it says. It answers the three commands that concern it, and takes a
/// message that it cannot key as a row that was not inserted.
pub open spec fn store_answer(rows: Set<u128>, command: CommandView) -> (
    Set<u128>,
    Option<AnswerView>,
) {
    match command {
        CommandView::CheckResponse(id) => (
            rows,
            Some(
                AnswerView::Exists(
                    match uuid_parse(id) {
                        Ok(key) => rows.contains(key),
                        Err(_) => false,
                    },
                ),
            ),
        ),
        CommandView::SaveResponse(response) => match row_ids(
            response.application_id,
            response.serhub_request_id,
        ) {
            Ok(ids) => (rows.insert(ids.1), Some(AnswerView::Saved(!rows.contains(ids.1)))),
            Err(_) => (rows, Some(AnswerView::Saved(false))),
        },
        CommandView::SaveTimeout(request) => match row_ids(
            request.application.application_id,
            request.service_info.serhub_request_id,
        ) {
            Ok(ids) => (rows.insert(ids.1), Some(AnswerView::Saved(!rows.contains(ids.1)))),
            Err(_) => (rows, Some(AnswerView::Saved(false))),
        },
        _ => (rows, None),
    }
}

/// A response store in memory.
pub struct ResponseStore {
    rows: Vec<u128>,
}

impl View for ResponseStore {
    type V = Set<u128>;

    /// The request ids for which the store holds a row.
    closed spec fn view(&self) -> Set<u128> {
        self.rows@.to_set()
    }
}

impl ResponseStore {
    /// A store without rows.
    pub fn new() -> (store: Self)
        ensures
            store@ == Set::<u128>::empty(),
    {
        let store = ResponseStore { rows: Vec::new() };
        assert(store.rows@.to_set() =~= Set::<u128>::empty());
        store
    }

    /// Whether the store holds a row for `key`.
    fn holds(&self, key: u128) -> (found: bool)
        ensures
            found == self@.contains(key),
    {
        let mut i: usize = 0;
        while i < self.rows.len()
            invariant
                i <= self.rows.len(),
                forall|k: int| 0 <= k < i ==> self.rows@[k] != key,
            decreases self.rows.len() - i,
        {
            if self.rows[i] == key {
                return true;
            }
            i = i + 1;
        }
        false
    }

    /// Inserts a row for `key` unless there is one, and says whether it did.
    fn insert_if_absent(&mut self, key: u128) -> (inserted: bool)
        ensures
            inserted == !old(self)@.contains(key),
            final(self)@ == old(self)@.insert(key),
    {
        if self.holds(key) {
            assert(self@.insert(key) =~= self@);
            false
        } else {
            let ghost before = self.rows@;
            self.rows.push(key);
            assert(self.rows@ == before.push(key));
            assert(self.rows@.to_set() =~= before.to_set().insert(key)) by {
                assert forall|x: u128| self.rows@.to_set().contains(x) <==> before.to_set().insert(
                    key,
                ).contains(x) by {
                    if before.contains(x) {
                        let k = choose|k: int| 0 <= k < before.len() && before[k] == x;
                        assert(self.rows@[k] == x);
                    }
                    if x == key {
                        assert(self.rows@[before.len() as int] == key);
                    }
                }
            }
            true
        }
    }

    /// Performs a command that concerns the response store, and hands back
    /// the answer. Any other command is left alone.
    pub fn perform(&mut self, command: &Command) -> (answer: Option<Answer>)
        ensures
            (
                final(self)@,
                match answer {
                    Some(answer) => Some(answer@),
                    None => None,
                },
            ) == store_answer(old(self)@, command@),
    {
        match command {
            Command::CheckResponse(id) => {
                let exists = match check_application_response(id.as_str(), self) {
                    Ok(exists) => exists,
                    Err(_) => false,
                };
                Some(Answer::Exists(exists))
            },
            Command::SaveResponse(response) => {
                let saved = match save_service_response(response, self) {
                    Ok(saved) => saved,
                    Err(_) => false,
                };
                Some(Answer::Saved(saved))
            },
            Command::SaveTimeout(request) => {
                let saved = match save_response_with_request(request, self) {
                    Ok(saved) => saved,
                    Err(_) => false,
                };
                Some(Answer::Saved(saved))
            },
            _ => None,
        }
    }
}

/// The key under which the response store files a request: its id, read as
/// a number.
pub fn response_key(serhub_request_id: &str) -> (key: Result<u128, CustomProjectErrors>)
    ensures
        match key {
            Ok(id) => uuid_parse(serhub_request_id@) == Ok::<u128, Seq<char>>(id),
            Err(error) => uuid_parse(serhub_request_id@) matches Err(complaint) && error@
                == ErrorView::DatabaseOperationError(complaint),
        },
{
    match parse_uuid(serhub_request_id) {
        Ok(id) => Ok(id),
        Err(complaint) => Err(CustomProjectErrors::DatabaseOperationError(complaint)),
    }
}

/// Whether the store holds a response for the request.
pub fn check_application_response(
    serhub_request_id: &str,
    connection: &ResponseStore,
) -> (outcome: Result<bool, CustomProjectErrors>)
    ensures
        match outcome {
            Ok(exists) => uuid_parse(serhub_request_id@) matches Ok(key) && exists
                == connection@.contains(key),
            Err(error) => uuid_parse(serhub_request_id@) matches Err(complaint) && error@
                == ErrorView::DatabaseOperationError(complaint),
        },
{
    match response_key(serhub_request_id) {
        Ok(key) => Ok(connection.holds(key)),
        Err(error) => Err(error),
    }
}

/// Inserts the response unless the store holds a row for its request, and
/// says whether it did.
pub fn save_service_response(
    service_response: &ServiceResponse,
    connection: &mut ResponseStore,
) -> (outcome: Result<bool, CustomProjectErrors>)
    ensures
        match outcome {
            Ok(saved) => row_ids(
                service_response.application_id@,
                service_response.serhub_request_id@,
            ) matches Ok(ids) && saved == !old(connection)@.contains(ids.1) && final(connection)@
                == old(connection)@.insert(ids.1),
            Err(error) => row_ids(
                service_response.application_id@,
                service_response.serhub_request_id@,
            ) == Err::<(u128, u128), ErrorView>(error@) && final(connection)@ == old(
                connection,
            )@,
        },
{
    let response_to_save = ServiceSqlResponse::try_from(service_response)?;
    Ok(connection.insert_if_absent(response_to_save.serhub_request_id))
}

/// Inserts a placeholder for the request unless the store holds a row for
/// it, and says whether it did.
pub fn save_response_with_request(
    request: &Request,
    connection: &mut ResponseStore,
) -> (outcome: Result<bool, CustomProjectErrors>)
    ensures
        match outcome {
            Ok(saved) => row_ids(
                request.application.application_id@,
                request.service_info.serhub_request_id@,
            ) matches Ok(ids) && saved == !old(connection)@.contains(ids.1) && final(connection)@
                == old(connection)@.insert(ids.1),
            Err(error) => row_ids(
                request.application.application_id@,
                request.service_info.serhub_request_id@,
            ) == Err::<(u128, u128), ErrorView>(error@) && final(connection)@ == old(
                connection,
            )@,
        },
{
    let sql_request = SqlRequest::try_from(request)?;
    Ok(connection.insert_if_absent(sql_request.serhub_request_id))
}

} // verus!
