//! What the GetOutline API exchanges on the wire, and how its HTTP statuses map onto the
//! errors of the reader port.
use crate::documents::{DocContent, DocRetrieveError, ReaderListError, ReaderListOptions};
use vstd::prelude::*;

verus! {

/// HTTP status with which GetOutline rejects the credentials of a request.
pub const STATUS_UNAUTHORIZED: u16 = 401;

/// HTTP status with which GetOutline answers a request for a document that does not exist.
pub const STATUS_NOT_FOUND: u16 = 404;

/// The current pagination status, served in response to an API request
pub struct PaginationStatus {
    pub offset: u32,
    pub limit: u32,
}

/// The envelope containing the actual data returned from the GetOutline API
pub struct DataEnvelope<T> {
    pub data: T,
}

/// Request for a list of documents, including pagination information
pub struct ListRequest {
    /// Pagination offset from the beginning of the results
    pub offset: u32,
    /// Number of results to return per page
    pub limit: u32,
    /// Author of requested documents
    pub user: Option<String>,
}

impl Default for ListRequest {
    fn default() -> (r: Self)
        ensures
            r.offset == 0,
            r.limit == 15,
            r.user is None,
    {
        ListRequest { offset: 0, limit: 15, user: None }
    }
}

impl<'a> From<&'a ReaderListOptions> for ListRequest {
    fn from(value: &'a ReaderListOptions) -> (r: Self) {
        let user = match &value.user {
            Some(id) => Some(id.clone()),
            None => None,
        };
        ListRequest { offset: value.offset, limit: value.limit, user }
    }
}

impl<'a> vstd::std_specs::convert::FromSpecImpl<&'a ReaderListOptions> for ListRequest {
    open spec fn obeys_from_spec() -> bool {
        true
    }

    open spec fn from_spec(v: &'a ReaderListOptions) -> ListRequest {
        ListRequest { offset: v.offset, limit: v.limit, user: v.user }
    }
}

/// Response from GetOutline with document content
pub struct RetrieveResponse {
    pub id: String,
    pub title: String,
    pub text: String,
}

impl From<RetrieveResponse> for DocContent {
    fn from(value: RetrieveResponse) -> (r: Self) {
        DocContent { id: value.id, title: value.title, text: value.text }
    }
}

impl vstd::std_specs::convert::FromSpecImpl<RetrieveResponse> for DocContent {
    open spec fn obeys_from_spec() -> bool {
        true
    }

    open spec fn from_spec(v: RetrieveResponse) -> DocContent {
        DocContent { id: v.id, title: v.title, text: v.text }
    }
}

/// The value of the `Authorization` header that presents `auth_token` to GetOutline.
pub fn authorization_value(auth_token: &str) -> (r: String)
    ensures
        r@ == "Bearer "@ + auth_token@,
{
    String::from_str("Bearer ").concat(auth_token)
}

/// Classifies a failed listing request by the HTTP status it got, if it got one: a rejection
/// of the credentials is told apart, anything else is an adapter failure caused by `cause`.
pub fn list_error_from_status(status: Option<u16>, cause: anyhow::Error) -> (r: ReaderListError)
    ensures
        status == Some(STATUS_UNAUTHORIZED) ==> r is BadCredentials,
        status != Some(STATUS_UNAUTHORIZED) ==> r == ReaderListError::AdapterError(cause),
{
    match status {
        Some(STATUS_UNAUTHORIZED) => ReaderListError::BadCredentials,
        _ => ReaderListError::AdapterError(cause),
    }
}

/// Classifies a failed request for one document by the HTTP status it got, if it got one:
/// rejected credentials and a missing document are told apart, anything else is an adapter
/// failure caused by `cause`.
pub fn retrieve_error_from_status(status: Option<u16>, cause: anyhow::Error) -> (r: DocRetrieveError)
    ensures
        status == Some(STATUS_UNAUTHORIZED) ==> r is BadCredentials,
        status == Some(STATUS_NOT_FOUND) ==> r is DocumentNotFound,
        status != Some(STATUS_UNAUTHORIZED) && status != Some(STATUS_NOT_FOUND) ==> r
            == DocRetrieveError::AdapterError(cause),
{
    match status {
        Some(STATUS_UNAUTHORIZED) => DocRetrieveError::BadCredentials,
        Some(STATUS_NOT_FOUND) => DocRetrieveError::DocumentNotFound,
        _ => DocRetrieveError::AdapterError(cause),
    }
}

} // verus!
