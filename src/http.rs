//! HTTP requests and the typed GET: what to send, and how a completed
//! exchange becomes a value or an `ApiError`.
use vstd::prelude::*;
use crate::error::ApiError;

verus! {

/// The status with which the server rejects an access token.
pub const UNAUTHORIZED: u16 = 401;

/// The HTTP methods the client can send.
#[derive(Copy, Clone, Debug, PartialEq, Eq, Structural)]
pub enum Method {
    GET,
    POST,
    PUT,
    DELETE,
}

/// A request ready to be sent: method, URL and optional body.
pub struct Request {
    pub method: Method,
    pub url: String,
    pub body: Option<String>,
}

/// The view of an optional body.
pub open spec fn body_view(b: Option<String>) -> Option<Seq<char>> {
    match b {
        Some(s) => Some(s@),
        None => None,
    }
}

/// Settings for a request; for now only the body it carries.
pub struct Http {
    body: Option<String>,
}

impl Http {
    /// The body that requests built from these settings carry.
    pub closed spec fn body_spec(&self) -> Option<Seq<char>> {
        body_view(self.body)
    }

    /// Settings with no body.
    pub fn new() -> (r: Http)
        ensures
            r.body_spec() is None,
    {
        Http { body: None }
    }

    /// Sets the body that requests carry, and hands the settings back for
    /// further changes.
    pub fn body(&mut self, body: &str) -> (r: &mut Http)
        ensures
            r.body_spec() == Some(body@),
            *final(self) == *final(r),
    {
        self.body = Some(String::from_str(body));
        self
    }

    /// The request of `method` to `url` with these settings.
    pub fn build(&self, method: Method, url: &str) -> (r: Request)
        ensures
            r.method == method,
            r.url@ == url@,
            body_view(r.body) == self.body_spec(),
    {
        let body = match &self.body {
            Some(b) => Some(b.clone()),
            None => None,
        };
        Request { method, url: String::from_str(url), body }
    }

    /// A GET of `url` with no body.
    pub fn get(url: &str) -> (r: Request)
        ensures
            r.method == Method::GET,
            r.url@ == url@,
            r.body is None,
    {
        Http::new().build(Method::GET, url)
    }

    /// A PUT of `url` with no body.
    pub fn put(url: &str) -> (r: Request)
        ensures
            r.method == Method::PUT,
            r.url@ == url@,
            r.body is None,
    {
        Http::new().build(Method::PUT, url)
    }

    /// A POST to `url` with no body.
    pub fn post(url: &str) -> (r: Request)
        ensures
            r.method == Method::POST,
            r.url@ == url@,
            r.body is None,
    {
        Http::new().build(Method::POST, url)
    }

    /// A DELETE of `url` with no body.
    pub fn delete(url: &str) -> (r: Request)
        ensures
            r.method == Method::DELETE,
            r.url@ == url@,
            r.body is None,
    {
        Http::new().build(Method::DELETE, url)
    }
}

/// A completed exchange: the status code and the whole body.
pub struct Response {
    status: u16,
    body: String,
}

impl Response {
    pub closed spec fn status_spec(&self) -> u16 {
        self.status
    }

    pub closed spec fn body_spec(&self) -> Seq<char> {
        self.body@
    }

    pub fn new(status: u16, body: String) -> (r: Response)
        ensures
            r.status_spec() == status,
            r.body_spec() == body@,
    {
        Response { status, body }
    }

    pub fn body(&self) -> (r: &str)
        ensures
            r@ == self.body_spec(),
    {
        self.body.as_str()
    }

    pub fn status(&self) -> (r: u16)
        ensures
            r == self.status_spec(),
    {
        self.status
    }
}

/// The result of a GET whose body decoded to `d`.
pub open spec fn decoded<T>(d: Result<T, String>) -> Result<T, ApiError> {
    match d {
        Ok(v) => Ok(v),
        Err(c) => Err(ApiError::Decode(c)),
    }
}

/// Turns the outcome of a GET into a typed value or an error. A transport
/// failure becomes `Transport`; an unauthorized status becomes
/// `InvalidAccessToken` whatever the body holds, and the body is then not
/// decoded; any other status has its body decoded by `decode`, whose value
/// is returned as it is and whose failure becomes `Decode`.
pub fn typed_response<T, F: FnOnce(&str) -> Result<T, String>>(
    exchange: Result<Response, String>,
    decode: F,
) -> (r: Result<T, ApiError>)
    requires
        forall|b: &str| call_requires(decode, (b,)),
    ensures
        match exchange {
            Err(c) => r == Err::<T, ApiError>(ApiError::Transport(c)),
            Ok(resp) => if resp.status_spec() == UNAUTHORIZED {
                r == Err::<T, ApiError>(ApiError::InvalidAccessToken)
            } else {
                exists|b: &str, d: Result<T, String>|
                    b@ == resp.body_spec() && call_ensures(decode, (b,), d) && r == decoded(d)
            },
        },
{
    match exchange {
        Err(c) => Err(ApiError::Transport(c)),
        Ok(resp) => {
            if resp.status() == UNAUTHORIZED {
                Err(ApiError::InvalidAccessToken)
            } else {
                let b = resp.body();
                let d = decode(b);
                match d {
                    Ok(v) => Ok(v),
                    Err(c) => Err(ApiError::Decode(c)),
                }
            }
        },
    }
}

} // verus!
