use vstd::prelude::*;

verus! {

/// The HTTP method of a request.
#[derive(Debug, Clone, Copy, PartialEq, Eq, Structural)]
pub enum Method {
    Get,
}

/// A request to send: method, path below the base URL, and the value of
/// its `Authorization` header. Read requests have no body.
#[derive(Debug, Clone, PartialEq, Eq)]
pub struct Request {
    pub method: Method,
    pub path: String,
    pub authorization: String,
}

/// The `Authorization` header value that carries an API key.
pub fn bearer_auth(api_key: &str) -> (r: String)
    ensures
        r@ == "Bearer "@ + api_key@,
{
    String::from_str("Bearer ").concat(api_key)
}

/// A `GET` request for `prefix` followed by `id`, authorized by `api_key`.
pub fn get_request(prefix: &str, id: &str, api_key: &str) -> (r: Request)
    ensures
        r.method == Method::Get,
        r.path@ == prefix@ + id@,
        r.authorization@ == "Bearer "@ + api_key@,
{
    Request { method: Method::Get, path: String::from_str(prefix).concat(id), authorization: bearer_auth(api_key) }
}

} // verus!
