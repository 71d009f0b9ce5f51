//! The search side: the upstream request URL, the typed result payload,
//! and the classification of upstream outcomes.
//!
//! The outbound HTTPS call itself is network I/O and lives outside the
//! library; it hands back a [`FetchOutcome`], from which everything else is
//! computed here.

use vstd::prelude::*;
use vstd::string::*;
use crate::render::render_cards;
use crate::render::spec_cards;
use crate::response::Status;
use crate::response::html_response;
use crate::response::spec_html_response;

verus! {

/// The one field of a result the server consumes: the downsized image URL.
pub struct Downsized {
    pub url: String,
}

/// The image block of one search result.
pub struct Images {
    pub downsized: Downsized,
}

/// One search result.
pub struct Gif {
    pub images: Images,
}

/// The typed shape of the upstream search payload: a `data` array of
/// results; every other field of the payload is ignored.
pub struct GiphyResponse {
    pub data: Vec<Gif>,
}

/// The image URLs of a payload, in order.
pub open spec fn spec_urls(g: GiphyResponse) -> Seq<Seq<char>> {
    g.data@.map(|i: int, gif: Gif| gif.images.downsized.url@)
}

/// Extract the image URLs of a payload, in order.
pub fn gif_urls(g: &GiphyResponse) -> (r: Vec<String>)
    ensures
        r.deep_view() == spec_urls(*g),
{
    let ghost s = spec_urls(*g);
    let mut out: Vec<String> = Vec::new();
    let mut i: usize = 0;
    while i < g.data.len()
        invariant
            i <= g.data.len(),
            s == spec_urls(*g),
            out@.len() == i,
            forall|j: int| 0 <= j < i ==> out@[j]@ == s[j],
        decreases g.data.len() - i,
    {
        let ghost prev = out@;
        out.push(g.data[i].images.downsized.url.clone());
        proof {
            assert(forall|j: int| 0 <= j < i ==> out@[j] == prev[j]);
            assert(out@[i as int]@ == s[i as int]);
        }
        i += 1;
    }
    proof {
        assert forall|j: int| 0 <= j < out@.len() implies out.deep_view()[j] == s[j] by {
            assert(out.deep_view()[j] == out@[j]@);
        }
        assert(out.deep_view() =~= s);
    }
    out
}

/// The upstream request URL: fixed endpoint, caller-supplied key and query,
/// fixed result limit and zero offset.
pub open spec fn spec_search_url(key: Seq<char>, q: Seq<char>) -> Seq<char> {
    "https://api.giphy.com/v1/gifs/search?api_key="@ + key + "&q="@ + q + "&limit=25&offset=0"@
}

/// Build the upstream request URL for a query.
pub fn build_search_url(api_key: &str, query: &str) -> (r: String)
    ensures
        r@ == spec_search_url(api_key@, query@),
{
    String::from_str("https://api.giphy.com/v1/gifs/search?api_key=")
        .concat(api_key)
        .concat("&q=")
        .concat(query)
        .concat("&limit=25&offset=0")
}

/// The distinct ways an upstream search can fail.
#[derive(Clone, Copy, Debug, PartialEq, Eq, Structural)]
pub enum UpstreamError {
    /// The upstream could not be reached at all.
    Network,
    /// The upstream answered with a non-success status.
    BadStatus,
    /// The upstream body did not have the expected payload shape.
    MalformedPayload,
}

/// What the outbound call observed: nothing at all, or a status code with
/// the payload when the body had the expected shape.
pub enum FetchOutcome {
    Failed,
    Replied { status: u16, payload: Option<GiphyResponse> },
}

/// How an outcome is classified: a network failure, a non-2xx status and a
/// payload of the wrong shape are each their own error; only a success
/// status with a well-shaped payload yields the result URLs.
pub open spec fn spec_classify(f: FetchOutcome) -> Result<Seq<Seq<char>>, UpstreamError> {
    match f {
        FetchOutcome::Failed => Err(UpstreamError::Network),
        FetchOutcome::Replied { status, payload } => {
            if !(200 <= status < 300) {
                Err(UpstreamError::BadStatus)
            } else {
                match payload {
                    None => Err(UpstreamError::MalformedPayload),
                    Some(g) => Ok(spec_urls(g)),
                }
            }
        },
    }
}

/// Classify an upstream outcome into result URLs or one distinct error.
pub fn search_urls(f: &FetchOutcome) -> (r: Result<Vec<String>, UpstreamError>)
    ensures
        match (r, spec_classify(*f)) {
            (Ok(v), Ok(s)) => v.deep_view() == s,
            (Err(e), Err(e2)) => e == e2,
            _ => false,
        },
{
    match f {
        FetchOutcome::Failed => Err(UpstreamError::Network),
        FetchOutcome::Replied { status, payload } => {
            if !(200 <= *status && *status < 300) {
                Err(UpstreamError::BadStatus)
            } else {
                match payload {
                    None => Err(UpstreamError::MalformedPayload),
                    Some(g) => Ok(gif_urls(g)),
                }
            }
        },
    }
}

/// The body shown for each upstream failure: a user-visible error fragment.
pub open spec fn spec_error_body(e: UpstreamError) -> Seq<char> {
    match e {
        UpstreamError::Network => "<p>Search failed: the upstream could not be reached.</p>"@,
        UpstreamError::BadStatus => "<p>Search failed: the upstream refused the request.</p>"@,
        UpstreamError::MalformedPayload => "<p>Search failed: the upstream sent an unreadable reply.</p>"@,
    }
}

/// The response written for an upstream outcome: the rendered cards on
/// success, an error fragment otherwise — in every case a complete
/// response, never an abort.
pub open spec fn spec_search_response(f: FetchOutcome) -> Seq<char> {
    match spec_classify(f) {
        Ok(urls) => spec_html_response(Status::Okay, spec_cards(urls)),
        Err(e) => spec_html_response(Status::Okay, spec_error_body(e)),
    }
}

/// Turn an upstream outcome into the complete response for the client.
pub fn search_response(f: &FetchOutcome) -> (r: String)
    ensures
        r@ == spec_search_response(*f),
{
    match search_urls(f) {
        Ok(urls) => {
            let cards = render_cards(&urls);
            html_response(200, cards.as_str())
        },
        Err(e) => {
            let body: &str = match e {
                UpstreamError::Network => "<p>Search failed: the upstream could not be reached.</p>",
                UpstreamError::BadStatus => "<p>Search failed: the upstream refused the request.</p>",
                UpstreamError::MalformedPayload => "<p>Search failed: the upstream sent an unreadable reply.</p>",
            };
            html_response(200, body)
        },
    }
}

} // verus!
