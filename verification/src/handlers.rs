//! The request handlers: each takes the payload of its request together
//! with the outcome of the single storage interaction it depends on, and
//! decides the complete HTTP response — status, body text, `Location`
//! header. The contracts pin every case down, including both kinds of
//! storage failure, which are always surfaced as a 500 with a generic
//! message and never as a crash.

use vstd::prelude::*;
use vstd::string::StringExecFns;
use crate::json::link_json;
use crate::json::link_json_spec;
use crate::model::Link;
use crate::model::Response;
use crate::model::StorageError;
use crate::store::get_link_spec;
use crate::store::Store;

verus! {

/// The create handler: on success, echoes the stored link as JSON; on a
/// connection or storage failure, answers 500 with a generic message.
pub fn create_url(link: &Link, outcome: Result<(), StorageError>) -> (resp: Response)
    ensures
        resp.location is None,
        outcome is Ok ==> resp.status == 200 && resp.body@ == link_json_spec(
            link.id@,
            link.url@,
        ),
        outcome == Err::<(), StorageError>(StorageError::Connection) ==> resp.status == 500
            && resp.body@ == "{\"error\":\"Error connecting to database\"}"@,
        outcome == Err::<(), StorageError>(StorageError::Operation) ==> resp.status == 500
            && resp.body@ == "{\"error\":\"Error shortening URL\"}"@,
{
    match outcome {
        Ok(_) => Response::with_body(200, link_json(link)),
        Err(StorageError::Connection) => Response::with_body(
            500,
            String::from_str("{\"error\":\"Error connecting to database\"}"),
        ),
        Err(StorageError::Operation) => Response::with_body(
            500,
            String::from_str("{\"error\":\"Error shortening URL\"}"),
        ),
    }
}

/// The delete handler: success is reported the same way whether or not
/// the identifier existed; failures answer 500 with a generic message.
pub fn delete_url(outcome: Result<(), StorageError>) -> (resp: Response)
    ensures
        resp.location is None,
        outcome is Ok ==> resp.status == 200 && resp.body@
            == "{\"status\":\"success\",\"message\":\"Link deleted\"}"@,
        outcome == Err::<(), StorageError>(StorageError::Connection) ==> resp.status == 500
            && resp.body@ == "{\"error\":\"Error connecting to database\"}"@,
        outcome == Err::<(), StorageError>(StorageError::Operation) ==> resp.status == 500
            && resp.body@ == "{\"error\":\"Error deleting Link\"}"@,
{
    match outcome {
        Ok(_) => Response::with_body(
            200,
            String::from_str("{\"status\":\"success\",\"message\":\"Link deleted\"}"),
        ),
        Err(StorageError::Connection) => Response::with_body(
            500,
            String::from_str("{\"error\":\"Error connecting to database\"}"),
        ),
        Err(StorageError::Operation) => Response::with_body(
            500,
            String::from_str("{\"error\":\"Error deleting Link\"}"),
        ),
    }
}

/// The redirect handler: a non-empty fetched URL becomes a 302 redirect
/// whose `Location` is that URL; the empty string — the not-found
/// sentinel — becomes a 200 with an empty body (deliberately not a 404);
/// failures answer 500 with a generic message.
pub fn redirect_url(outcome: Result<String, StorageError>) -> (resp: Response)
    ensures
        outcome matches Ok(url) ==> (if url@.len() > 0 {
            resp.status == 302 && (resp.location matches Some(l) && l@ == url@) && resp.body@.len()
                == 0
        } else {
            resp.status == 200 && resp.location is None && resp.body@.len() == 0
        }),
        outcome == Err::<String, StorageError>(StorageError::Connection) ==> resp.status == 500
            && resp.body@ == "{\"error\":\"Error connecting to database\"}"@ && resp.location
            is None,
        outcome == Err::<String, StorageError>(StorageError::Operation) ==> resp.status == 500
            && resp.body@ == "{\"error\":\"Error redirecting to full URL\"}"@ && resp.location
            is None,
{
    match outcome {
        Ok(url) => {
            if !url.as_str().is_empty() {
                Response { status: 302, body: String::new(), location: Some(url) }
            } else {
                Response::with_body(200, String::new())
            }
        },
        Err(StorageError::Connection) => Response::with_body(
            500,
            String::from_str("{\"error\":\"Error connecting to database\"}"),
        ),
        Err(StorageError::Operation) => Response::with_body(
            500,
            String::from_str("{\"error\":\"Error redirecting to full URL\"}"),
        ),
    }
}

/// The handler behind every unregistered path and method.
pub fn not_found_handler() -> (resp: Response)
    ensures
        resp.status == 404,
        resp.body@ == "{\"error\":\"Not found\"}"@,
        resp.location is None,
{
    Response::with_body(404, String::from_str("{\"error\":\"Not found\"}"))
}

/// The create operation end to end against the reference store: the
/// mapping is stored (replacing any previous one) and echoed back.
pub fn handle_create(store: &mut Store, link: &Link) -> (resp: Response)
    requires
        old(store).wf(),
    ensures
        final(store).wf(),
        final(store)@ == old(store)@.insert(link.id@, link.url@),
        resp.status == 200,
        resp.body@ == link_json_spec(link.id@, link.url@),
        resp.location is None,
{
    let outcome = store.create_link(link.id.as_str(), link.url.as_str());
    create_url(link, outcome)
}

/// The delete operation end to end against the reference store: the
/// mapping is removed if present, and success is reported either way.
pub fn handle_delete(store: &mut Store, id: &str) -> (resp: Response)
    requires
        old(store).wf(),
    ensures
        final(store).wf(),
        final(store)@ == old(store)@.remove(id@),
        resp.status == 200,
        resp.body@ == "{\"status\":\"success\",\"message\":\"Link deleted\"}"@,
        resp.location is None,
{
    let outcome = store.delete_link(id);
    delete_url(outcome)
}

/// The redirect operation end to end against the reference store: a
/// stored non-empty URL redirects, an absent identifier answers 200 with
/// an empty body.
pub fn handle_redirect(store: &Store, id: &str) -> (resp: Response)
    requires
        store.wf(),
    ensures
        get_link_spec(store@, id@).len() > 0 ==> resp.status == 302 && (resp.location matches Some(
            l,
        ) && l@ == get_link_spec(store@, id@)) && resp.body@.len() == 0,
        get_link_spec(store@, id@).len() == 0 ==> resp.status == 200 && resp.location is None
            && resp.body@.len() == 0,
{
    let outcome = store.get_link(id);
    redirect_url(outcome)
}

} // verus!
