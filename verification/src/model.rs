//! The data model: the stored `Link` entity, the request payload shapes,
//! the storage error taxonomy and the HTTP response value that handlers
//! produce.

use vstd::prelude::*;

verus! {

/// The sole entity: a mapping from a caller-supplied short identifier to
/// the destination URL it resolves to.
#[derive(Debug)]
pub struct Link {
    pub id: String,
    pub url: String,
}

/// How a storage interaction can fail: either no connection to the backing
/// store could be acquired, or the backend call itself failed. The two are
/// distinguished only in the operator-facing error message, never in the
/// response status.
#[derive(Clone, Copy, Debug, PartialEq, Eq, Structural)]
pub enum StorageError {
    /// A storage connection could not be acquired.
    Connection,
    /// The backend call itself failed.
    Operation,
}

/// Everything a handler decides about an HTTP response: the status code,
/// the body text, and the `Location` header for redirects.
#[derive(Debug)]
pub struct Response {
    pub status: u16,
    pub body: String,
    pub location: Option<String>,
}

impl Response {
    /// A response carrying a status and a body, with no `Location` header.
    pub fn with_body(status: u16, body: String) -> (r: Response)
        ensures
            r.status == status,
            r.body == body,
            r.location is None,
    {
        Response { status, body, location: None }
    }
}

} // verus!
