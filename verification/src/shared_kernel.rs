//! The canonical HTTP model every detector consumes: immutable request and
//! response values with case-insensitively named headers, and the parser
//! interfaces through which detectors report their findings.

use vstd::prelude::*;

use crate::text::eq_ci;

verus! {

/// A textual message body; binary bodies are out of scope and treated as
/// absent by the callers that build the model.
pub enum Body {
    Text(String),
}

impl View for Body {
    type V = Seq<char>;

    open spec fn view(&self) -> Seq<char> {
        match self {
            Body::Text(s) => s@,
        }
    }
}

/// A captured HTTP request, immutable once constructed.
pub struct Request {
    /// The method, case-preserving as received.
    pub method: String,
    /// The absolute target URL.
    pub url: String,
    /// Header name/value pairs in the order received; names compare
    /// case-insensitively.
    pub headers: Vec<(String, String)>,
    /// The request body.
    pub body: Body,
}

/// A captured HTTP response, immutable once constructed.
pub struct Response {
    /// The status code.
    pub status: u16,
    /// Header name/value pairs in the order received; names compare
    /// case-insensitively.
    pub headers: Vec<(String, String)>,
    /// The response body.
    pub body: Body,
}

/// The mathematical model of a request.
pub struct RequestView {
    pub method: Seq<char>,
    pub url: Seq<char>,
    pub headers: Seq<(Seq<char>, Seq<char>)>,
    pub body: Seq<char>,
}

/// The mathematical model of a response.
pub struct ResponseView {
    pub status: u16,
    pub headers: Seq<(Seq<char>, Seq<char>)>,
    pub body: Seq<char>,
}

/// The model of a header list: each name and value as a character sequence.
pub open spec fn headers_view(h: Seq<(String, String)>) -> Seq<(Seq<char>, Seq<char>)> {
    h.map_values(|kv: (String, String)| (kv.0@, kv.1@))
}

impl View for Request {
    type V = RequestView;

    open spec fn view(&self) -> RequestView {
        RequestView {
            method: self.method@,
            url: self.url@,
            headers: headers_view(self.headers@),
            body: self.body@,
        }
    }
}

impl View for Response {
    type V = ResponseView;

    open spec fn view(&self) -> ResponseView {
        ResponseView { status: self.status, headers: headers_view(self.headers@), body: self.body@ }
    }
}

/// The value of the first header whose name equals `name` up to ASCII case,
/// if any.
pub open spec fn header_value(headers: Seq<(Seq<char>, Seq<char>)>, name: Seq<char>) -> Option<
    Seq<char>,
>
    decreases headers.len(),
{
    if headers.len() == 0 {
        None
    } else if eq_ci(headers[0].0, name) {
        Some(headers[0].1)
    } else {
        header_value(headers.drop_first(), name)
    }
}

/// The value of the first header named `name` (case-insensitively) in `headers`.
pub fn find_header(headers: &Vec<(String, String)>, name: &str) -> (r: Option<String>)
    ensures
        match r {
            Some(v) => header_value(headers_view(headers@), name@) == Some(v@),
            None => header_value(headers_view(headers@), name@) is None,
        },
{
    let ghost hv = headers_view(headers@);
    proof {
        assert(hv.skip(0) =~= hv);
    }
    let n = headers.len();
    let mut i: usize = 0;
    while i < n
        invariant
            i <= n,
            n == headers@.len(),
            hv == headers_view(headers@),
            hv.len() == n,
            header_value(hv, name@) == header_value(hv.skip(i as int), name@),
        decreases n - i,
    {
        if crate::text::str_eq_ci(headers[i].0.as_str(), name) {
            let v = headers[i].1.clone();
            proof {
                assert(hv.skip(i as int)[0] == hv[i as int]);
            }
            return Some(v);
        }
        proof {
            assert(hv.skip(i as int).drop_first() =~= hv.skip(i + 1));
            assert(hv.skip(i as int)[0] == hv[i as int]);
        }
        i += 1;
    }
    proof {
        assert(hv.skip(n as int).len() == 0);
    }
    None
}

impl Request {
    /// The value of the first header named `name` (case-insensitively).
    pub fn header(&self, name: &str) -> (r: Option<String>)
        ensures
            match r {
                Some(v) => header_value(self@.headers, name@) == Some(v@),
                None => header_value(self@.headers, name@) is None,
            },
    {
        find_header(&self.headers, name)
    }
}

impl Response {
    /// The value of the first header named `name` (case-insensitively).
    pub fn header(&self, name: &str) -> (r: Option<String>)
        ensures
            match r {
                Some(v) => header_value(self@.headers, name@) == Some(v@),
                None => header_value(self@.headers, name@) is None,
            },
    {
        find_header(&self.headers, name)
    }
}

/// One captured message of either direction.
pub enum HttpExchange {
    Request(Request),
    Response(Response),
}

/// A detector that inspects one request and reports a finding of type `T`.
///
/// `spec_parse` is the implementation's own model of what it finds; `parse`
/// must return exactly that, as the view of the returned value.
pub trait RequestParser<T: View<V = Seq<char>>> {
    /// What this detector finds, as a model; an implementation outside the
    /// verifier may leave the default, which models a detector that finds
    /// nothing.
    open spec fn spec_parse(&self, request: RequestView) -> Option<Seq<char>> {
        None
    }

    fn parse(&self, request: &Request) -> (r: Option<T>)
        ensures
            r is Some <==> self.spec_parse(request@) is Some,
            r matches Some(t) ==> Some(t@) == self.spec_parse(request@),
    ;
}

/// A detector that inspects one response and reports a finding of type `T`.
pub trait ResponseParser<T> {
    /// What this detector finds, as a model; an implementation outside the
    /// verifier may leave the default, which models a detector that finds
    /// nothing.
    open spec fn spec_parse(&self, response: ResponseView) -> Option<T> {
        None
    }

    fn parse(&self, response: &Response) -> (r: Option<T>)
        ensures
            r == self.spec_parse(response@),
    ;
}

/// A checker that weighs a whole captured exchange and reports a finding of
/// type `T`.
pub trait VulnerabilityChecker<T> {
    fn check_vulnerability(&self, exchange: Vec<HttpExchange>) -> Option<T>;
}

} // verus!
