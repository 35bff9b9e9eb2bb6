use crate::json::{JsonDocument, JsonObject};
use vstd::prelude::*;
use vstd::string::*;

verus! {

#[derive(Debug, Clone, Copy, PartialEq, Eq, Structural)]
pub enum Method {
    Get,
    Post,
    Patch,
    Delete,
}

impl Method {
    /// The status that a successful request answers with: 200 for GET and
    /// PATCH, 201 for POST, 204 for DELETE.
    pub open spec fn success(self) -> u16 {
        match self {
            Method::Get => 200,
            Method::Post => 201,
            Method::Patch => 200,
            Method::Delete => 204,
        }
    }

    pub fn success_status(&self) -> (r: u16)
        ensures
            r == self.success(),
    {
        match self {
            Method::Get => 200,
            Method::Post => 201,
            Method::Patch => 200,
            Method::Delete => 204,
        }
    }
}

/// A request ready to be sent: method, URL, headers in order, and a JSON
/// body where there is one.
#[derive(Debug, PartialEq)]
pub struct HttpRequest {
    pub method: Method,
    pub url: String,
    pub headers: Vec<(String, String)>,
    pub body: Option<JsonObject>,
}

/// What the server answered: the status and the body as far as it parsed
/// as JSON.
#[derive(Debug, PartialEq)]
pub struct HttpResponse {
    pub status: u16,
    pub body: JsonDocument,
}

/// No answer came: the connection, name lookup, TLS or a timeout failed.
#[derive(Debug, Clone, PartialEq)]
pub struct TransportError {
    pub message: String,
}

/// Why an operation failed.
#[derive(Debug, PartialEq)]
pub enum Error {
    /// No response was received; carries the cause.
    Transport(String),
    /// The server answered with a 4xx or 5xx status.
    Http { status: u16, body: JsonDocument },
    /// The server answered with a status that is neither an error nor the
    /// success status of the operation.
    Protocol { status: u16 },
    /// The response body does not have the expected shape.
    Decode(String),
    /// A check made before any request failed.
    InvalidArgument(String),
}

pub open spec fn is_error_status(status: u16) -> bool {
    400 <= status && status < 600
}

pub open spec fn headers_view(h: Seq<(String, String)>) -> Seq<(Seq<char>, Seq<char>)> {
    h.map_values(|p: (String, String)| (p.0@, p.1@))
}

pub open spec fn body_view(b: Option<JsonObject>) -> Option<Seq<(Seq<char>, crate::json::Json)>> {
    match b {
        Some(o) => Some(o@),
        None => None,
    }
}

/// The headers of every request: the token as `Authorization: token <t>`,
/// and the JSON content type where a body is sent.
pub open spec fn request_headers(token: Seq<char>, has_body: bool) -> Seq<(Seq<char>, Seq<char>)> {
    seq![("Authorization"@, "token "@ + token)] + if has_body {
        seq![("Content-Type"@, "application/json"@)]
    } else {
        Seq::empty()
    }
}

impl HttpRequest {
    /// The request has this method, URL and body, and carries the token.
    pub open spec fn is(
        self,
        method: Method,
        url: Seq<char>,
        token: Seq<char>,
        body: Option<Seq<(Seq<char>, crate::json::Json)>>,
    ) -> bool {
        &&& self.method == method
        &&& self.url@ == url
        &&& headers_view(self.headers@) == request_headers(token, body is Some)
        &&& body_view(self.body) == body
    }

    pub fn new(method: Method, url: String, token: &str, body: Option<JsonObject>) -> (r: HttpRequest)
        ensures
            r.is(method, url@, token@, body_view(body)),
    {
        let mut auth = String::from_str("token ");
        auth.append(token);
        let mut headers: Vec<(String, String)> = Vec::new();
        headers.push((String::from_str("Authorization"), auth));
        if body.is_some() {
            headers.push((String::from_str("Content-Type"), String::from_str("application/json")));
        }
        let r = HttpRequest { method, url, headers, body };
        assert(headers_view(r.headers@) =~= request_headers(token@, body is Some));
        r
    }
}

/// What a request's outcome comes to before its body is read: a transport
/// failure, an error status, an unexpected status, or the body.
pub open spec fn status_result(out: Result<HttpResponse, TransportError>, expected: u16) -> Result<JsonDocument, Error> {
    match out {
        Err(e) => Err(Error::Transport(e.message)),
        Ok(resp) => if is_error_status(resp.status) {
            Err(Error::Http { status: resp.status, body: resp.body })
        } else if resp.status != expected {
            Err(Error::Protocol { status: resp.status })
        } else {
            Ok(resp.body)
        },
    }
}

/// Sorts a request's outcome: a transport failure, a 4xx/5xx status, a
/// status other than `expected`, or the body of a response with `expected`.
pub fn check_status(out: Result<HttpResponse, TransportError>, expected: u16) -> (r: Result<JsonDocument, Error>)
    ensures
        r == status_result(out, expected),
{
    match out {
        Err(e) => Err(Error::Transport(e.message)),
        Ok(resp) => {
            if 400 <= resp.status && resp.status < 600 {
                Err(Error::Http { status: resp.status, body: resp.body })
            } else if resp.status != expected {
                Err(Error::Protocol { status: resp.status })
            } else {
                Ok(resp.body)
            }
        },
    }
}

} // verus!
