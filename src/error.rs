use vstd::prelude::*;
use crate::timestamp::TimestampsError;

verus! {

/// Why a response body could not be read as the expected record.
#[derive(Debug, Clone, PartialEq, Eq)]
pub enum DecodeError {
    /// The body does not have the shape of the record; the text says where.
    Body(String),
    /// An instant of the record could not be read.
    Timestamps(TimestampsError),
}

/// An error of any operation: the shared kinds first, then the kind that is
/// proper to the operation `E`.
#[derive(Debug, Clone, PartialEq, Eq)]
pub enum WorkOsError<E> {
    /// A failure that only this operation has.
    Operation(E),
    /// The server answered 401: the credential was refused.
    Unauthorized,
    /// The request URL could not be built from the base URL and the path.
    UrlParse(String),
    /// The request did not get a response (connection, DNS, TLS, timeout).
    Transport(String),
    /// The server answered with a status outside 2xx other than 401, with
    /// the message of its error body when it had one.
    Api { status: u16, message: Option<String> },
    /// A 2xx response whose body is not the expected record.
    Decode(DecodeError),
}

/// The result of an operation.
pub type WorkOsResult<T, E> = Result<T, WorkOsError<E>>;

/// A status in the 2xx range.
pub open spec fn is_success(status: u16) -> bool {
    200 <= status <= 299
}

/// The classification of a response by its status alone, before its body
/// is read as a record: `None` when the body is to be read.
pub open spec fn status_error<E>(status: u16, error_message: Option<String>) -> Option<WorkOsError<E>> {
    if status == 401 {
        Some(WorkOsError::Unauthorized)
    } else if is_success(status) {
        None
    } else {
        Some(WorkOsError::Api { status, message: error_message })
    }
}

/// Classifies a response by its status: 401 is `Unauthorized` whatever the
/// body holds, any other status outside 2xx is an `Api` error carrying the
/// message of the error body (`{"message": ...}`) when it had one, and 2xx
/// passes.
pub fn handle_unauthorized_or_generic_error<E>(status: u16, error_message: Option<String>) -> (r:
    Result<(), WorkOsError<E>>)
    ensures
        r is Ok <==> status_error::<E>(status, error_message) is None,
        r is Err ==> Some(r->Err_0) == status_error::<E>(status, error_message),
{
    if status == 401 {
        Err(WorkOsError::Unauthorized)
    } else if 200 <= status && status <= 299 {
        Ok(())
    } else {
        Err(WorkOsError::Api { status, message: error_message })
    }
}

/// Unauthorized precedence: a 401 response is classified as `Unauthorized`
/// whatever message its body holds, never as an `Api` error.
pub proof fn lemma_unauthorized_precedence<E>(error_message: Option<String>)
    ensures
        status_error::<E>(401, error_message) == Some(WorkOsError::<E>::Unauthorized),
{
}

} // verus!
