//! `fetch` for scripts: how a request is read from its options, which methods may be
//! sent, and the response a script gets back.
use vstd::prelude::*;

use super::{failed, js_error};
use crate::text::{decimal, natural_text};

verus! {

#[verifier::external_type_specification]
#[verifier::external_body]
pub struct ExMethod(reqwest::Method);

/// A byte that may stand in an HTTP method: RFC 9110's `tchar`.
pub open spec fn is_tchar(b: u8) -> bool {
    b == 0x21 || (0x23 <= b && b <= 0x27) || b == 0x2a || b == 0x2b || b == 0x2d || b == 0x2e || (
    0x30 <= b && b <= 0x39) || (0x41 <= b && b <= 0x5a) || (0x5e <= b && b <= 0x7a) || b == 0x7c
        || b == 0x7e
}

/// An HTTP method: one or more `tchar` bytes.
pub open spec fn is_method_token(bytes: Seq<u8>) -> bool {
    bytes.len() > 0 && forall|i: int| 0 <= i < bytes.len() ==> is_tchar(#[trigger] bytes[i])
}

/// The method `Method::from_bytes` reads from a token; it depends on the bytes alone.
pub uninterp spec fn method_for(bytes: Seq<u8>) -> reqwest::Method;

/// Reads an HTTP method from its bytes.
///
/// Calls `reqwest::Method::from_bytes` (that is `http::Method::from_bytes`), which
/// accepts exactly the non-empty byte strings made of `tchar`s, and whose error shows
/// as "invalid HTTP method". The method it gives is the one `method_for` names for
/// the bytes.
#[verifier::external_body]
fn method_from_bytes(bytes: &[u8]) -> (method: Result<reqwest::Method, String>)
    ensures
        method is Ok <==> is_method_token(bytes@),
        method matches Ok(m) ==> m == method_for(bytes@),
        method matches Err(text) ==> text@ == "invalid HTTP method"@,
{
    match reqwest::Method::from_bytes(bytes) {
        Ok(method) => Ok(method),
        Err(error) => Err(error.to_string()),
    }
}

/// What a script passed as `fetch` options, as far as each could be read.
pub struct FetchOptions {
    pub method: Option<String>,
    pub headers: Option<Vec<(String, String)>>,
    pub body: Option<String>,
}

/// A request as a script asked for it.
pub struct Request {
    pub url: String,
    pub method: String,
    pub headers: Vec<(String, String)>,
    pub body: Option<String>,
}

/// Reads a request from `fetch`'s arguments: without options it is a bare `GET`; an
/// option that is not there falls back to `GET`, no headers and no body.
pub fn read_options(url: &str, options: Option<FetchOptions>) -> (request: Request)
    ensures
        request.url@ == url@,
        match options {
            None => request.method@ == "GET"@ && request.headers@.len() == 0 && request.body
                is None,
            Some(o) => {
                &&& request.method@ == match o.method {
                    Some(m) => m@,
                    None => "GET"@,
                }
                &&& request.headers@ == match o.headers {
                    Some(h) => h@,
                    None => Seq::<(String, String)>::empty(),
                }
                &&& request.body == o.body
            },
        },
{
    match options {
        None => Request {
            url: String::from_str(url),
            method: String::from_str("GET"),
            headers: Vec::new(),
            body: None,
        },
        Some(o) => Request {
            url: String::from_str(url),
            method: match o.method {
                Some(m) => m,
                None => String::from_str("GET"),
            },
            headers: match o.headers {
                Some(h) => h,
                None => Vec::new(),
            },
            body: o.body,
        },
    }
}

impl Request {
    /// The method to send the request with; a method that is not an HTTP token is
    /// refused before anything is sent.
    pub fn method_to_send(&self) -> (method: Result<reqwest::Method, rquickjs::Error>)
        ensures
            method is Ok <==> is_method_token(vstd::utf8::encode_utf8(self.method@)),
            method matches Ok(m) ==> m == method_for(vstd::utf8::encode_utf8(self.method@)),
            method matches Err(e) ==> e == js_error("invalid HTTP method"@),
    {
        let bytes = self.method.as_str().as_bytes();
        match method_from_bytes(bytes) {
            Ok(m) => Ok(m),
            Err(text) => Err(failed(text)),
        }
    }
}

/// The answer to a script's `fetch`.
#[derive(Clone, Debug)]
pub struct ScriptResponse {
    pub status: u16,
    /// Whether the status is a success, 200 to 299.
    pub ok: bool,
    pub url: String,
    /// The body, as the script reads it with `text()`.
    pub body: String,
}

impl ScriptResponse {
    /// The answer to a request: its status, the URL it came from and its body.
    pub fn new(status: u16, url: String, body: String) -> (response: Self)
        ensures
            response.status == status,
            response.ok == (200 <= status && status < 300),
            response.url == url,
            response.body == body,
    {
        ScriptResponse { status, ok: 200 <= status && status < 300, url, body }
    }

    /// The body, as text.
    pub fn text(&self) -> (body: String)
        ensures
            body@ == self.body@,
    {
        self.body.clone()
    }

    /// How a script prints the answer: `Response(status, url)`.
    pub fn to_string_js(&self) -> (shown: String)
        ensures
            shown@ == "Response("@ + decimal(self.status as int) + ", "@ + self.url@ + ")"@,
    {
        let mut shown = String::from_str("Response(");
        let status = natural_text(self.status as u64);
        shown.append(status.as_str());
        shown.append(", ");
        shown.append(self.url.as_str());
        shown.append(")");
        shown
    }
}

} // verus!
