//! The HTTP requests that are sent to a hypervisor over its socket.
use vstd::prelude::*;

use crate::io_error::{IoError, IoErrorKind, IoErrorView};
use crate::pool::ProxyResponse;

verus! {

/// The HTTP methods that hypervisors are asked with.
#[derive(Debug, Clone, Copy, PartialEq, Eq, Structural)]
pub enum HttpMethod {
    Get,
    Put,
}

/// A request, ready to be sent.
#[derive(Debug)]
pub struct HttpRequest {
    pub method: HttpMethod,
    pub uri: String,
    /// Header names and values, in the order in which they are sent.
    pub headers: Vec<(String, String)>,
    pub body: Vec<u8>,
}

/// The contents of a list of names and values.
pub open spec fn pair_texts(list: Seq<(String, String)>) -> Seq<(Seq<char>, Seq<char>)> {
    list.map_values(|p: (String, String)| (p.0@, p.1@))
}

/// An empty path stands for the root.
pub open spec fn request_uri(path: Seq<char>) -> Seq<char> {
    if path.len() == 0 {
        "/"@
    } else {
        path
    }
}

/// The headers of a request: a fixed host, no reuse of the connection, and the type of the body
/// where it has one.
pub open spec fn request_headers(content_type: Option<Seq<char>>) -> Seq<(Seq<char>, Seq<char>)> {
    let fixed = seq![("host"@, "localhost"@), ("connection"@, "close"@)];
    match content_type {
        Some(t) => fixed.push(("content-type"@, t)),
        None => fixed,
    }
}

/// The request made of a method, a path and a body.
pub open spec fn is_unix_http_request(
    r: HttpRequest,
    method: HttpMethod,
    path: Seq<char>,
    body: Seq<u8>,
    content_type: Option<Seq<char>>,
) -> bool {
    &&& r.method == method
    &&& r.uri@ == request_uri(path)
    &&& pair_texts(r.headers@) == request_headers(content_type)
    &&& r.body@ == body
}

/// The characters of an optional borrowed text.
pub open spec fn opt_str(s: Option<&str>) -> Option<Seq<char>> {
    match s {
        Some(t) => Some(t@),
        None => None,
    }
}

/// Makes the request that is sent over a hypervisor's socket.
pub fn unix_http_request(
    method: HttpMethod,
    path: &str,
    body: Vec<u8>,
    content_type: Option<&str>,
) -> (r: HttpRequest)
    ensures
        is_unix_http_request(r, method, path@, body@, opt_str(content_type)),
{
    let uri = if path.is_empty() {
        "/".to_owned()
    } else {
        path.to_owned()
    };
    let mut headers: Vec<(String, String)> = Vec::new();
    headers.push(("host".to_owned(), "localhost".to_owned()));
    headers.push(("connection".to_owned(), "close".to_owned()));
    if let Some(value) = content_type {
        headers.push(("content-type".to_owned(), value.to_owned()));
    }
    proof {
        assert(pair_texts(headers@) =~= request_headers(opt_str(content_type)));
    }
    HttpRequest { method, uri, headers, body }
}

/// A byte that a header value shows as a character.
pub open spec fn visible(b: u8) -> bool {
    32 <= b < 127 || b == 9
}

/// The text of a header value, where all of it can be shown.
pub open spec fn header_text(value: Seq<u8>) -> Option<Seq<char>> {
    if forall|i: int| 0 <= i < value.len() ==> visible(#[trigger] value[i]) {
        Some(value.map_values(|b: u8| b as char))
    } else {
        None
    }
}

fn read_header_text(value: &Vec<u8>) -> (r: Option<String>)
    ensures
        match r {
            Some(t) => header_text(value@) == Some(t@),
            None => header_text(value@) is None,
        },
{
    let ghost shown = value@.map_values(|b: u8| b as char);
    let mut out = String::new();
    let mut i: usize = 0;
    while i < value.len()
        invariant
            i <= value@.len(),
            shown == value@.map_values(|b: u8| b as char),
            forall|j: int| 0 <= j < i ==> visible(#[trigger] value@[j]),
            out@ =~= shown.take(i as int),
        decreases value@.len() - i,
    {
        let b: u8 = value[i];
        if !((32 <= b && b < 127) || b == 9) {
            assert(!visible(value@[i as int]));
            return None;
        }
        out.push(b as char);
        i += 1;
    }
    proof {
        assert(shown.take(value@.len() as int) =~= shown);
    }
    Some(out)
}

/// Keeps of a response what is passed on: its status, its body, and the type of the body where that
/// can be shown.
pub fn response_to_proxy_response(
    status: u16,
    content_type: Option<Vec<u8>>,
    body: Vec<u8>,
) -> (r: ProxyResponse)
    ensures
        r.status == status,
        r.body == body,
        match content_type {
            Some(value) => match r.content_type {
                Some(t) => header_text(value@) == Some(t@),
                None => header_text(value@) is None,
            },
            None => r.content_type is None,
        },
{
    let content_type = match &content_type {
        Some(value) => read_header_text(value),
        None => None,
    };
    ProxyResponse { status, content_type, body }
}

/// A failure of no particular kind.
pub fn io_other(error: String) -> (r: IoError)
    ensures
        r@ == (IoErrorView { kind: IoErrorKind::Other, message: error@ }),
{
    IoError { kind: IoErrorKind::Other, message: error }
}

/// A failure caused by a wrong parameter.
pub fn io_invalid_input(error: String) -> (r: IoError)
    ensures
        r@ == (IoErrorView { kind: IoErrorKind::InvalidInput, message: error@ }),
{
    IoError { kind: IoErrorKind::InvalidInput, message: error }
}

} // verus!
