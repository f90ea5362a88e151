//! What is asked of the transport: one HTTP request, the two clients that
//! can carry it, and what each of them is handed.

use vstd::prelude::*;
use vstd::string::StringExecFns;

use crate::error::IpCamerasError;
use crate::text::{lemma_views_push, views};

verus! {

/// The client or clients that carry a request.
#[derive(Debug, Clone, Copy, PartialEq, Eq, Structural)]
pub enum RequestType {
    Reqwest,
    Curl,
    All,
}

/// One client of the transport.
#[derive(Debug, Clone, Copy, PartialEq, Eq, Structural)]
pub enum Backend {
    Reqwest,
    Curl,
}

/// A header that a request may carry.
#[derive(Debug, Clone, Copy, PartialEq, Eq, Structural)]
pub enum Header {
    JSON,
}

impl Header {
    /// The header as the command-line client takes it.
    pub open spec fn spec_to_curl(&self) -> Seq<char> {
        "Content-Type: application/json"@
    }

    /// The name of the header.
    pub open spec fn spec_name(&self) -> Seq<char> {
        "content-type"@
    }

    /// The value of the header.
    pub open spec fn spec_value(&self) -> Seq<char> {
        "application/json"@
    }

    pub fn to_curl(&self) -> (line: &'static str)
        ensures
            line@ == self.spec_to_curl(),
    {
        match self {
            Header::JSON => "Content-Type: application/json",
        }
    }

    /// The name of the header, as the library client takes it.
    pub fn name(&self) -> (name: &'static str)
        ensures
            name@ == self.spec_name(),
    {
        match self {
            Header::JSON => "content-type",
        }
    }

    /// The value of the header, as the library client takes it.
    pub fn value(&self) -> (value: &'static str)
        ensures
            value@ == self.spec_value(),
    {
        match self {
            Header::JSON => "application/json",
        }
    }
}

/// The verb of a request.
#[derive(Debug, Clone, Copy, PartialEq, Eq, Structural)]
pub enum Method {
    GET,
    PUT,
    POST,
    DELETE,
    PATCH,
    HEAD,
    CONNECT,
    OPTIONS,
    TRACE,
}

impl Method {
    /// The verb in capitals.
    pub open spec fn spec_name(&self) -> Seq<char> {
        match self {
            Method::GET => "GET"@,
            Method::PUT => "PUT"@,
            Method::POST => "POST"@,
            Method::DELETE => "DELETE"@,
            Method::PATCH => "PATCH"@,
            Method::HEAD => "HEAD"@,
            Method::CONNECT => "CONNECT"@,
            Method::OPTIONS => "OPTIONS"@,
            Method::TRACE => "TRACE"@,
        }
    }

    pub fn to_string(&self) -> (name: String)
        ensures
            name@ == self.spec_name(),
    {
        match self {
            Method::GET => String::from_str("GET"),
            Method::PUT => String::from_str("PUT"),
            Method::POST => String::from_str("POST"),
            Method::DELETE => String::from_str("DELETE"),
            Method::PATCH => String::from_str("PATCH"),
            Method::HEAD => String::from_str("HEAD"),
            Method::CONNECT => String::from_str("CONNECT"),
            Method::OPTIONS => String::from_str("OPTIONS"),
            Method::TRACE => String::from_str("TRACE"),
        }
    }

    /// The library client carries the verb.
    pub open spec fn spec_supported(&self) -> bool {
        self is GET || self is PUT || self is POST || self is DELETE || self is HEAD
    }

    /// The library client sends a body with the verb.
    pub open spec fn spec_carries_body(&self) -> bool {
        self is PUT || self is POST || self is DELETE
    }
}

/// One HTTP request, with the credentials under which it is made.
#[derive(Debug)]
pub struct HttpRequest {
    pub rt: RequestType,
    pub url: String,
    pub params: Option<String>,
    pub auth: (Option<String>, Option<String>),
    pub method: Method,
    pub headers: Option<Vec<Header>>,
}

/// What a request says, in characters.
pub struct HttpRequestView {
    pub rt: RequestType,
    pub url: Seq<char>,
    pub params: Option<Seq<char>>,
    pub username: Option<Seq<char>>,
    pub password: Option<Seq<char>>,
    pub method: Method,
    pub headers: Option<Seq<Header>>,
}

impl View for HttpRequest {
    type V = HttpRequestView;

    open spec fn view(&self) -> HttpRequestView {
        HttpRequestView {
            rt: self.rt,
            url: self.url@,
            params: match self.params {
                Some(p) => Some(p@),
                None => None,
            },
            username: match self.auth.0 {
                Some(u) => Some(u@),
                None => None,
            },
            password: match self.auth.1 {
                Some(p) => Some(p@),
                None => None,
            },
            method: self.method,
            headers: match self.headers {
                Some(h) => Some(h@),
                None => None,
            },
        }
    }
}

/// The clients that carry a request of the given type, in the order in
/// which they are run.
pub open spec fn spec_backends(rt: RequestType) -> Seq<Backend> {
    match rt {
        RequestType::Reqwest => seq![Backend::Reqwest],
        RequestType::Curl => seq![Backend::Curl],
        RequestType::All => seq![Backend::Curl, Backend::Reqwest],
    }
}

pub fn backends(rt: RequestType) -> (clients: Vec<Backend>)
    ensures
        clients@ == spec_backends(rt),
{
    let mut clients: Vec<Backend> = Vec::new();
    match rt {
        RequestType::Reqwest => {
            clients.push(Backend::Reqwest);
        },
        RequestType::Curl => {
            clients.push(Backend::Curl);
        },
        RequestType::All => {
            clients.push(Backend::Curl);
            clients.push(Backend::Reqwest);
        },
    }
    assert(clients@ =~= spec_backends(rt));
    clients
}

/// The header lines of a request as the command-line client takes them:
/// `-H` before each.
pub open spec fn curl_header_arguments(headers: Seq<Header>) -> Seq<Seq<char>>
    decreases headers.len(),
{
    if headers.len() == 0 {
        seq![]
    } else {
        curl_header_arguments(headers.drop_last()) + seq!["-H"@, headers.last().spec_to_curl()]
    }
}

/// The arguments with which the command-line client makes a request: the
/// address and the verb; the body, where there is one; the headers; the time
/// limit; and digest credentials, where both a user and a password are given.
pub open spec fn curl_arguments(request: HttpRequestView) -> Seq<Seq<char>> {
    seq![request.url, "-X"@, request.method.spec_name()] + (match request.params {
        Some(body) => seq!["-d"@, body],
        None => seq![],
    }) + (match request.headers {
        Some(headers) => curl_header_arguments(headers),
        None => seq![],
    }) + seq!["--max-time"@, "5"@] + (match (request.username, request.password) {
        (Some(user), Some(password)) => seq!["--digest"@, "--user"@, user + ":"@ + password],
        _ => seq![],
    })
}

fn push_text(arguments: &mut Vec<String>, text: &str)
    ensures
        views(final(arguments)@) == views(old(arguments)@).push(text@),
{
    let owned = String::from_str(text);
    proof {
        lemma_views_push(arguments@, owned);
    }
    arguments.push(owned);
}

impl HttpRequest {
    /// The arguments that the command-line client is run with for this
    /// request.
    pub fn curl_arguments(&self) -> (arguments: Vec<String>)
        ensures
            views(arguments@) == curl_arguments(self@),
    {
        let mut arguments: Vec<String> = Vec::new();
        assert(views(arguments@) =~= seq![]);
        push_text(&mut arguments, self.url.as_str());
        push_text(&mut arguments, "-X");
        let verb = self.method.to_string();
        push_text(&mut arguments, verb.as_str());
        let ghost head = seq![self.url@, "-X"@, self.method.spec_name()];
        assert(views(arguments@) =~= head);
        match &self.params {
            Some(body) => {
                push_text(&mut arguments, "-d");
                push_text(&mut arguments, body.as_str());
            },
            None => {},
        }
        let ghost with_body = head + (match self@.params {
            Some(body) => seq!["-d"@, body],
            None => seq![],
        });
        assert(views(arguments@) =~= with_body);
        match &self.headers {
            Some(headers) => {
                let mut at: usize = 0;
                assert(headers@.take(0) =~= seq![]);
                while at < headers.len()
                    invariant
                        at <= headers.len(),
                        views(arguments@) == with_body + curl_header_arguments(
                            headers@.take(at as int),
                        ),
                    decreases headers.len() - at,
                {
                    push_text(&mut arguments, "-H");
                    push_text(&mut arguments, headers[at].to_curl());
                    proof {
                        let next = headers@.take(at + 1);
                        assert(next.drop_last() =~= headers@.take(at as int));
                        assert(next.last() == headers@[at as int]);
                        assert(views(arguments@) =~= with_body + curl_header_arguments(next));
                    }
                    at += 1;
                }
                assert(headers@.take(at as int) =~= headers@);
            },
            None => {
                assert(views(arguments@) =~= with_body + seq![]);
            },
        }
        let ghost with_headers = with_body + (match self@.headers {
            Some(headers) => curl_header_arguments(headers),
            None => seq![],
        });
        assert(views(arguments@) == with_headers);
        push_text(&mut arguments, "--max-time");
        push_text(&mut arguments, "5");
        let ghost with_limit = with_headers + seq!["--max-time"@, "5"@];
        assert(views(arguments@) =~= with_limit);
        match (&self.auth.0, &self.auth.1) {
            (Some(user), Some(password)) => {
                push_text(&mut arguments, "--digest");
                push_text(&mut arguments, "--user");
                let mut credentials = String::from_str(user.as_str());
                credentials.append(":");
                credentials.append(password.as_str());
                push_text(&mut arguments, credentials.as_str());
                assert(views(arguments@) =~= with_limit + seq![
                    "--digest"@,
                    "--user"@,
                    user@ + ":"@ + password@,
                ]);
            },
            _ => {
                assert(views(arguments@) =~= with_limit + seq![]);
            },
        }
        arguments
    }

    /// Whether the library client sends the body with this request; it
    /// refuses the verbs that it does not carry.
    pub fn reqwest_body(&self) -> (sent: Result<bool, IpCamerasError>)
        ensures
            sent is Ok <==> self.method.spec_supported(),
            sent matches Ok(with_body) ==> with_body == self.method.spec_carries_body(),
            sent matches Err(e) ==> e is NotSet,
    {
        match self.method {
            Method::GET => Ok(false),
            Method::PUT => Ok(true),
            Method::POST => Ok(true),
            Method::DELETE => Ok(true),
            Method::HEAD => Ok(false),
            _ => Err(IpCamerasError::NotSet),
        }
    }

    /// Whether the request is made under digest credentials: it is where
    /// both a user and a password are given.
    pub fn uses_digest(&self) -> (digest: bool)
        ensures
            digest == (self.auth.0 is Some && self.auth.1 is Some),
    {
        self.auth.0.is_some() && self.auth.1.is_some()
    }
}

/// What a request carried by several clients answers: the first failure,
/// in the order in which the clients ran, or the answer of the last client.
pub open spec fn combined<T, E>(first: Result<T, E>, second: Result<T, E>) -> Result<T, E> {
    match first {
        Ok(_) => second,
        Err(e) => Err(e),
    }
}

/// Combines the answers of two clients that carried the same request.
pub fn combine<T, E>(first: Result<T, E>, second: Result<T, E>) -> (answer: Result<T, E>)
    ensures
        answer == combined(first, second),
{
    match first {
        Ok(_) => second,
        Err(e) => Err(e),
    }
}

} // verus!
