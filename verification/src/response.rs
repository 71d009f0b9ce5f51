//! HTTP/1.1 response framing: status line, fixed header, body.

use vstd::prelude::*;
use vstd::string::*;
use crate::request::Method;
use crate::request::Request;
use crate::request::Route;
use crate::request::spec_route;

verus! {

/// Outcome of routing a request: the only two statuses this server emits.
#[derive(Clone, Copy, Debug, PartialEq, Eq, Structural)]
pub enum Status {
    Okay,
    NotFound,
}

impl Status {
    /// Numeric code of the status.
    pub open spec fn spec_code(self) -> u16 {
        match self {
            Status::Okay => 200,
            Status::NotFound => 404,
        }
    }

    /// Numeric code of the status.
    pub fn code(&self) -> (r: u16)
        ensures
            r == self.spec_code(),
    {
        match self {
            Status::Okay => 200,
            Status::NotFound => 404,
        }
    }
}

/// Everything of a response that precedes the body: status line with the
/// reason phrase, the one content-type header, and the blank separator line.
pub open spec fn spec_head(status: Status) -> Seq<char> {
    match status {
        Status::Okay => "HTTP/1.1 200 OK\r\nContent-Type: text/html\r\n\r\n"@,
        Status::NotFound => "HTTP/1.1 404 NOT FOUND\r\nContent-Type: text/html\r\n\r\n"@,
    }
}

/// A complete response: head followed by the body, verbatim.
pub open spec fn spec_html_response(status: Status, body: Seq<char>) -> Seq<char> {
    spec_head(status) + body
}

/// The status selected for a numeric code; only 200 and 404 exist here.
pub open spec fn status_of_code(code: u16) -> Status {
    if code == 200 {
        Status::Okay
    } else {
        Status::NotFound
    }
}

/// Frame `content` as a full HTTP/1.1 response with the given status code.
///
/// Only the two codes of the closed status mapping are meaningful; any other
/// code would be a programming error, so it is excluded up front.
pub fn html_response(status: u16, content: &str) -> (r: String)
    requires
        status == 200 || status == 404,
    ensures
        r@ == spec_html_response(status_of_code(status), content@),
{
    let head: &str = if status == 200 {
        "HTTP/1.1 200 OK\r\nContent-Type: text/html\r\n\r\n"
    } else {
        "HTTP/1.1 404 NOT FOUND\r\nContent-Type: text/html\r\n\r\n"
    };
    String::from_str(head).concat(content)
}

/// The dispatch table: the closed set of (method, route) pairs the server
/// accepts.  Every pair outside the table resolves to NotFound — dispatch
/// is total, never an error.
pub open spec fn spec_dispatch(m: Method, r: Route) -> (Status, Route) {
    match (m, r) {
        (Method::Get, Route::Index) => (Status::Okay, Route::Index),
        (Method::Get, Route::Hello) => (Status::Okay, Route::Hello),
        (Method::Post, Route::Send) => (Status::Okay, Route::Send),
        (Method::Post, Route::Search) => (Status::Okay, Route::Search),
        (Method::Get, Route::Search) => (Status::Okay, Route::Search),
        _ => (Status::NotFound, Route::NotFound),
    }
}

/// Whether a (method, bare path) pair is an entry of the dispatch table.
pub open spec fn spec_in_table(m: Method, path: Seq<char>) -> bool {
    spec_dispatch(m, spec_route(path)).0 == Status::Okay
}

/// The status and route a request resolves to.
#[derive(Clone, Copy, Debug, PartialEq, Eq, Structural)]
pub struct Response {
    pub status: Status,
    pub route: Route,
}

impl Response {
    /// Dispatch a request over the fixed table.
    pub fn from(request: Request) -> (r: Response)
        ensures
            r.status == spec_dispatch(request@.method, spec_route(request@.path)).0,
            r.route == spec_dispatch(request@.method, spec_route(request@.path)).1,
    {
        let route = Route::from(request.path.as_str());
        let (status, route) = match (request.method, route) {
            (Method::Get, Route::Index) => (Status::Okay, route),
            (Method::Get, Route::Hello) => (Status::Okay, route),
            (Method::Post, Route::Send) => (Status::Okay, route),
            (Method::Post, Route::Search) => (Status::Okay, route),
            (Method::Get, Route::Search) => (Status::Okay, route),
            _ => (Status::NotFound, Route::NotFound),
        };
        Response { status, route }
    }
}

/// Any pair absent from the dispatch table resolves to NotFound, and the
/// response framed for it carries the fixed 404 status line and reason.
pub proof fn lemma_unrouted_is_not_found(m: Method, path: Seq<char>, body: Seq<char>)
    requires
        !spec_in_table(m, path),
    ensures
        spec_dispatch(m, spec_route(path)) == (Status::NotFound, Route::NotFound),
        spec_html_response(spec_dispatch(m, spec_route(path)).0, body) == "HTTP/1.1 404 NOT FOUND\r\nContent-Type: text/html\r\n\r\n"@ + body,
{
}

} // verus!
