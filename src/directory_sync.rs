use vstd::prelude::*;
use crate::directory::{Directory, DirectoryFields};
use crate::error::{DecodeError, WorkOsError, WorkOsResult, handle_unauthorized_or_generic_error, status_error};
use crate::ids::DirectoryId;
use crate::request::{Method, Request, get_request};
use crate::timestamp::Timestamps;

verus! {

/// An error proper to retrieving a directory. Retrieval has no failure
/// beyond the shared kinds of [`WorkOsError`]: the one variant is reserved,
/// and [`get_directory_response`] never gives it.
#[derive(Debug, Clone, Copy, PartialEq, Eq, Structural)]
pub enum GetDirectoryError {
    Reserved,
}

impl From<GetDirectoryError> for WorkOsError<GetDirectoryError> {
    fn from(err: GetDirectoryError) -> (r: Self) {
        WorkOsError::Operation(err)
    }
}

impl vstd::std_specs::convert::FromSpecImpl<GetDirectoryError> for WorkOsError<GetDirectoryError> {
    open spec fn obeys_from_spec() -> bool {
        true
    }

    open spec fn from_spec(v: GetDirectoryError) -> Self {
        WorkOsError::Operation(v)
    }
}

/// The request that retrieves a directory by its ID:
/// `GET /directories/{id}` with the API key as bearer credential.
pub fn get_directory_request(api_key: &str, id: &DirectoryId) -> (r: Request)
    ensures
        r.method == Method::Get,
        r.path@ == "/directories/"@ + id@,
        r.authorization@ == "Bearer "@ + api_key@,
{
    get_request("/directories/", id.as_str(), api_key)
}

/// What the response to [`get_directory_request`] gives, from its status,
/// the message of its body read as an error envelope (if it is one), and
/// its body read as the wire fields of a directory (or why it is not).
pub open spec fn get_directory_outcome(
    status: u16,
    error_message: Option<String>,
    body: Result<DirectoryFields, String>,
    r: WorkOsResult<Directory, GetDirectoryError>,
) -> bool {
    match status_error::<GetDirectoryError>(status, error_message) {
        Some(e) => r == Err::<Directory, WorkOsError<GetDirectoryError>>(e),
        None => match body {
            Err(m) => r == Err::<Directory, WorkOsError<GetDirectoryError>>(
                WorkOsError::Decode(DecodeError::Body(m)),
            ),
            Ok(f) => match Timestamps::spec_parse(f.created_at@, f.updated_at@) {
                Err(e) => r == Err::<Directory, WorkOsError<GetDirectoryError>>(
                    WorkOsError::Decode(DecodeError::Timestamps(e)),
                ),
                Ok(t) => r is Ok && Directory::read_as(f, t, r->Ok_0),
            },
        },
    }
}

/// Turns the response to [`get_directory_request`] into a directory or an
/// error: 401 first, whatever the body; then any other status outside 2xx;
/// then the body read as a directory.
pub fn get_directory_response(
    status: u16,
    error_message: Option<String>,
    body: Result<DirectoryFields, String>,
) -> (r: WorkOsResult<Directory, GetDirectoryError>)
    ensures
        get_directory_outcome(status, error_message, body, r),
        status == 401 ==> r == Err::<Directory, WorkOsError<GetDirectoryError>>(
            WorkOsError::Unauthorized,
        ),
        r is Ok ==> r->Ok_0.wf(),
        !(r is Err && r->Err_0 is Operation),
{
    match handle_unauthorized_or_generic_error::<GetDirectoryError>(status, error_message) {
        Err(e) => Err(e),
        Ok(()) => match body {
            Err(m) => Err(WorkOsError::Decode(DecodeError::Body(m))),
            Ok(f) => match Directory::from_fields(&f) {
                Ok(d) => Ok(d),
                Err(e) => Err(WorkOsError::Decode(DecodeError::Timestamps(e))),
            },
        },
    }
}

} // verus!
