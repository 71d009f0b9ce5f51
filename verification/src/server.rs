//! Per-connection decisions: what one read of request bytes leads to.
//!
//! The surrounding binary owns the sockets.  After each accepted
//! connection's single read it calls [`on_read`]; when the step asks for a
//! search it performs the outbound call and hands the outcome to
//! [`crate::search::search_response`].  Every decision in between is made
//! and verified here.

use vstd::prelude::*;
use vstd::string::*;
use crate::content::ContentTable;
use crate::content::spec_content;
use crate::request::Method;
use crate::request::ReqView;
use crate::request::Route;
use crate::request::map_of;
use crate::request::parse_query;
use crate::request::parse_request;
use crate::request::spec_pairs;
use crate::request::spec_parse;
use crate::request::spec_route;
use crate::response::Response;
use crate::response::Status;
use crate::response::html_response;
use crate::response::spec_dispatch;
use crate::response::spec_html_response;
use crate::search::build_search_url;
use crate::search::spec_search_url;

verus! {

/// Process configuration: the one required secret, read once before the
/// accept loop starts and immutable afterwards.
pub struct Config {
    pub api_key: String,
}

/// What the connection task must do after its one read.
pub enum Step {
    /// Orderly peer closure: end the task without writing anything.
    Close,
    /// Write this complete response, then close the connection.
    Reply(String),
    /// Fetch this upstream URL, turn the outcome into a response, write
    /// it, then close the connection.
    Search(String),
}

/// A step, as the contracts see it.
pub enum StepView {
    Close,
    Reply(Seq<char>),
    Search(Seq<char>),
}

impl View for Step {
    type V = StepView;

    open spec fn view(&self) -> StepView {
        match self {
            Step::Close => StepView::Close,
            Step::Reply(s) => StepView::Reply(s@),
            Step::Search(s) => StepView::Search(s@),
        }
    }
}

/// What `String::from_utf8_lossy` decodes a byte sequence to.
pub uninterp spec fn lossy_decode(bytes: Seq<u8>) -> Seq<char>;

/// Relies on `String::from_utf8_lossy`: the decoding depends on the bytes
/// alone, replacing invalid UTF-8 sequences with the replacement character;
/// an empty input decodes to the empty string.
#[verifier::external_body]
fn decode_lossy(bytes: &[u8]) -> (r: String)
    ensures
        r@ == lossy_decode(bytes@),
        bytes@.len() == 0 ==> r@.len() == 0,
{
    String::from_utf8_lossy(bytes).into_owned()
}

/// The search term of a request: the `search` field of the form body for a
/// POST, of the URL query otherwise; an absent field degrades to empty.
pub open spec fn spec_search_q(rv: ReqView) -> Seq<char> {
    let pairs = if rv.method == Method::Post {
        spec_pairs(rv.body)
    } else {
        rv.query
    };
    let m = map_of(pairs);
    if m.contains_key("search"@) {
        m["search"@]
    } else {
        Seq::empty()
    }
}

/// The fixed 404 reply: status and reason with the NotFound content.
pub open spec fn spec_not_found_reply(table: Map<Route, Seq<char>>) -> StepView {
    StepView::Reply(spec_html_response(Status::NotFound, spec_content(table, Route::NotFound)))
}

/// What one request text leads to: a 404 reply when the request line is
/// beyond the safe defaults or its pair is off the dispatch table, the
/// upstream URL to fetch for a search, and the route's static content
/// framed as a 200 reply otherwise.
pub open spec fn spec_handle(
    s: Seq<char>,
    table: Map<Route, Seq<char>>,
    key: Seq<char>,
) -> StepView {
    match spec_parse(s) {
        Err(_) => spec_not_found_reply(table),
        Ok(rv) => {
            let d = spec_dispatch(rv.method, spec_route(rv.path));
            if d.0 == Status::NotFound {
                spec_not_found_reply(table)
            } else if d.1 == Route::Search {
                StepView::Search(spec_search_url(key, spec_search_q(rv)))
            } else {
                StepView::Reply(spec_html_response(Status::Okay, spec_content(table, d.1)))
            }
        },
    }
}

/// Decide the step for one request text.
pub fn handle_request(raw: &str, table: &ContentTable, config: &Config) -> (r: Step)
    ensures
        r@ == spec_handle(raw@, table@, config.api_key@),
{
    match parse_request(raw) {
        Err(_) => {
            let body = table.content(Route::NotFound);
            Step::Reply(html_response(404, body.as_str()))
        },
        Ok(req) => {
            let q: String = if req.method == Method::Post {
                let form = parse_query(req.body.as_str());
                match form.get("search") {
                    Some(v) => v.clone(),
                    None => String::new(),
                }
            } else {
                match req.query.get("search") {
                    Some(v) => v.clone(),
                    None => String::new(),
                }
            };
            let resp = Response::from(req);
            if resp.status == Status::NotFound {
                let body = table.content(Route::NotFound);
                Step::Reply(html_response(404, body.as_str()))
            } else if resp.route == Route::Search {
                Step::Search(build_search_url(config.api_key.as_str(), q.as_str()))
            } else {
                let body = table.content(resp.route);
                Step::Reply(html_response(200, body.as_str()))
            }
        },
    }
}

/// Decide the step after one read of `data` from an established
/// connection.  A zero-length read is orderly peer closure: the step is
/// `Close`, so the task ends without any write.
pub fn on_read(data: &[u8], table: &ContentTable, config: &Config) -> (r: Step)
    ensures
        r@ == if data@.len() == 0 {
            StepView::Close
        } else {
            spec_handle(lossy_decode(data@), table@, config.api_key@)
        },
{
    if data.len() == 0 {
        Step::Close
    } else {
        let text = decode_lossy(data);
        handle_request(text.as_str(), table, config)
    }
}

} // verus!
