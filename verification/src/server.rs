//! What a handler sees of one exchange: the request as plain values, the
//! response it fills in, and the `Handler` capability itself.

use vstd::prelude::*;
use crate::version::HttpVersion;

verus! {

/// The status code of a response that matched no handler.
pub const NOT_FOUND: u16 = 404;

/// The status code that a fresh response starts with.
pub const OK: u16 = 200;

/// An incoming request.
pub struct Request {
    /// The request method, such as `GET`.
    pub method: String,
    /// The request target: a path, optionally followed by `?` and a query.
    pub uri: String,
    /// The protocol version of the request.
    pub version: HttpVersion,
    /// Header fields, in the order in which they arrived.
    pub headers: Vec<(String, String)>,
    /// The request body.
    pub body: Vec<u8>,
}

/// A request as a mathematical value.
pub struct RequestView {
    pub method: Seq<char>,
    pub uri: Seq<char>,
    pub version: HttpVersion,
    pub headers: Seq<(Seq<char>, Seq<char>)>,
    pub body: Seq<u8>,
}

impl View for Request {
    type V = RequestView;

    open spec fn view(&self) -> RequestView {
        RequestView {
            method: self.method@,
            uri: self.uri@,
            version: self.version,
            headers: self.headers.deep_view(),
            body: self.body@,
        }
    }
}

impl Request {
    /// A `GET` request for `uri` over HTTP/1.1, without headers or body.
    pub fn new(uri: &str) -> (req: Request)
        ensures
            req@ == (RequestView {
                method: "GET"@,
                uri: uri@,
                version: HttpVersion::Http11,
                headers: Seq::empty(),
                body: Seq::empty(),
            }),
    {
        let req = Request {
            method: "GET".to_owned(),
            uri: uri.to_owned(),
            version: HttpVersion::Http11,
            headers: Vec::new(),
            body: Vec::new(),
        };
        assert(req.headers.deep_view() =~= Seq::empty());
        req
    }
}

/// The response to one request, filled in by middleware and by a handler.
pub struct Response {
    /// The status code.
    pub status: u16,
    /// The protocol version of the response.
    pub version: HttpVersion,
    /// Header fields, in the order in which they were added.
    pub headers: Vec<(String, String)>,
    /// The response body.
    pub body: Vec<u8>,
}

/// A response as a mathematical value.
pub struct ResponseView {
    pub status: u16,
    pub version: HttpVersion,
    pub headers: Seq<(Seq<char>, Seq<char>)>,
    pub body: Seq<u8>,
}

impl ResponseView {
    /// The same response under another status code.
    pub open spec fn with_status(self, status: u16) -> ResponseView {
        ResponseView { status, ..self }
    }
}

impl View for Response {
    type V = ResponseView;

    open spec fn view(&self) -> ResponseView {
        ResponseView {
            status: self.status,
            version: self.version,
            headers: self.headers.deep_view(),
            body: self.body@,
        }
    }
}

/// The number of "not found", taken from `http::StatusCode::NOT_FOUND` by
/// `StatusCode::as_u16`. The `http` crate defines that constant as 404.
#[verifier::external_body]
fn not_found_code() -> (code: u16)
    ensures
        code == NOT_FOUND,
{
    http::StatusCode::NOT_FOUND.as_u16()
}

impl Response {
    /// A fresh response: status 200 over HTTP/1.1, without headers or body.
    pub fn new() -> (res: Response)
        ensures
            res@ == (ResponseView {
                status: OK,
                version: HttpVersion::Http11,
                headers: Seq::empty(),
                body: Seq::empty(),
            }),
    {
        let res = Response {
            status: OK,
            version: HttpVersion::Http11,
            headers: Vec::new(),
            body: Vec::new(),
        };
        assert(res.headers.deep_view() =~= Seq::empty());
        res
    }

    /// Marks the response as "not found". Only the status changes: no header
    /// is added and no body is written.
    pub fn set_not_found(&mut self)
        ensures
            final(self)@ == old(self)@.with_status(NOT_FOUND),
    {
        self.status = not_found_code();
    }
}

/// The capability that answers a request.
///
/// An implementation says in `responds` what it promises of a call; by
/// default it promises nothing.
pub trait Handler: Send + Sync {
    /// What a call may do: relates the request and the response before the
    /// call to the response after it.
    open spec fn responds(&self, req: RequestView, before: ResponseView, after: ResponseView) -> bool {
        true
    }

    /// Answers `req` by filling in `res`.
    fn handle(&self, req: Request, res: &mut Response)
        ensures
            self.responds(req@, old(res)@, final(res)@),
    ;
}

/// A handler behind shared ownership answers exactly as the handler itself.
impl<H: Handler> Handler for std::sync::Arc<H> {
    open spec fn responds(&self, req: RequestView, before: ResponseView, after: ResponseView) -> bool {
        (**self).responds(req, before, after)
    }

    fn handle(&self, req: Request, res: &mut Response)
        ensures
            (**self).responds(req@, old(res)@, final(res)@),
    {
        (**self).handle(req, res)
    }
}

} // verus!
