//! Request parsing: request line, method, path, query mapping and body.

use vstd::prelude::*;
use vstd::string::*;
use crate::text::find_c;
use crate::text::find_char;
use crate::text::is_blank;
use crate::text::lemma_find_c;
use crate::text::lemma_runs_bounded;
use crate::text::skip_ws_len;
use crate::text::spec_blank;
use crate::text::spec_skip_ws;
use crate::text::spec_take_tok;
use crate::text::str_eq;
use crate::text::take_tok_len;

verus! {

/// The two request methods this server understands.
#[derive(Clone, Copy, Debug, PartialEq, Eq, Structural)]
pub enum Method {
    Get,
    Post,
}

/// The closed set of routes the server serves.
#[derive(Clone, Copy, Debug, PartialEq, Eq, Structural)]
pub enum Route {
    Index,
    Hello,
    Send,
    NotFound,
    Search,
}

/// A request that cannot be handled at all: its request line is beyond the
/// safe defaults.
#[derive(Clone, Copy, Debug, PartialEq, Eq, Structural)]
pub enum ParseError {
    UnsupportedMethod,
}

/// The method named by a (possibly empty) method token: an absent token
/// defaults to GET, any token other than the two known ones is rejected.
pub open spec fn spec_method(m: Seq<char>) -> Result<Method, ParseError> {
    if m.len() == 0 || m == "GET"@ {
        Ok(Method::Get)
    } else if m == "POST"@ {
        Ok(Method::Post)
    } else {
        Err(ParseError::UnsupportedMethod)
    }
}

impl Method {
    /// Select the method for a method token.
    pub fn from(s: &str) -> (r: Result<Method, ParseError>)
        ensures
            r == spec_method(s@),
    {
        if s.unicode_len() == 0 {
            Ok(Method::Get)
        } else if str_eq(s, "GET") {
            Ok(Method::Get)
        } else if str_eq(s, "POST") {
            Ok(Method::Post)
        } else {
            Err(ParseError::UnsupportedMethod)
        }
    }
}

/// The route table over bare paths; everything unknown is NotFound.
pub open spec fn spec_route(p: Seq<char>) -> Route {
    if p == "/"@ {
        Route::Index
    } else if p == "/hello"@ {
        Route::Hello
    } else if p == "/send"@ {
        Route::Send
    } else if p == "/search"@ {
        Route::Search
    } else {
        Route::NotFound
    }
}

/// The short name of a route, used to key its static resource.
pub open spec fn spec_route_name(r: Route) -> Seq<char> {
    match r {
        Route::Index => "index"@,
        Route::Hello => "hello"@,
        Route::Send => "send"@,
        Route::NotFound => "404"@,
        Route::Search => "search"@,
    }
}

impl Route {
    /// The short name of the route, used to key its static resource.
    pub fn name(&self) -> (r: String)
        ensures
            r@ == spec_route_name(*self),
    {
        match self {
            Route::Index => String::from_str("index"),
            Route::Hello => String::from_str("hello"),
            Route::Send => String::from_str("send"),
            Route::NotFound => String::from_str("404"),
            Route::Search => String::from_str("search"),
        }
    }

    /// Select the route for a bare path.
    pub fn from(route: &str) -> (r: Route)
        ensures
            r == spec_route(route@),
    {
        if str_eq(route, "/") {
            Route::Index
        } else if str_eq(route, "/hello") {
            Route::Hello
        } else if str_eq(route, "/send") {
            Route::Send
        } else if str_eq(route, "/search") {
            Route::Search
        } else {
            Route::NotFound
        }
    }
}

/// The views of an ordered pair list.
pub open spec fn pairs_view(ps: Seq<(String, String)>) -> Seq<(Seq<char>, Seq<char>)> {
    ps.map(|i: int, p: (String, String)| (p.0@, p.1@))
}

/// The mapping that inserting the pairs in order builds: a later pair with
/// the same key overwrites an earlier one.
pub open spec fn map_of<K, V>(ps: Seq<(K, V)>) -> Map<K, V>
    decreases ps.len(),
{
    if ps.len() == 0 {
        Map::empty()
    } else {
        map_of(ps.drop_last()).insert(ps.last().0, ps.last().1)
    }
}

/// The mapping of a pair list holds exactly the keys of the list, and for
/// each key the value of the last pair that carries it.
pub proof fn lemma_map_of_last<K, V>(ps: Seq<(K, V)>, k: K)
    ensures
        map_of(ps).contains_key(k) <==> exists|i: int| 0 <= i < ps.len() && ps[i].0 == k,
        forall|i: int|
            (0 <= i < ps.len() && ps[i].0 == k && (forall|j: int|
                i < j < ps.len() ==> ps[j].0 != k)) ==> map_of(ps)[k] == ps[i].1,
    decreases ps.len(),
{
    if ps.len() == 0 {
    } else {
        let prev = ps.drop_last();
        lemma_map_of_last(prev, k);
        assert(forall|i: int| 0 <= i < prev.len() ==> prev[i] == ps[i]);
        let n = ps.len() - 1;
        if ps[n].0 == k {
            assert(map_of(ps)[k] == ps[n].1);
        } else {
            assert(map_of(ps).contains_key(k) <==> map_of(prev).contains_key(k));
        }
        assert forall|i: int|
            (0 <= i < ps.len() && ps[i].0 == k && (forall|j: int|
                i < j < ps.len() ==> ps[j].0 != k)) implies map_of(ps)[k] == ps[i].1 by {
            if i < n {
                assert(ps[n].0 != k);
                assert(forall|j: int| i < j < prev.len() ==> prev[j].0 != k);
                assert(map_of(prev)[k] == prev[i].1);
            }
        }
    }
}

/// A query mapping: the parsed pairs in source order, read as a last-wins
/// string-to-string mapping.
pub struct QueryMap {
    pub pairs: Vec<(String, String)>,
}

impl View for QueryMap {
    type V = Map<Seq<char>, Seq<char>>;

    open spec fn view(&self) -> Map<Seq<char>, Seq<char>> {
        map_of(pairs_view(self.pairs@))
    }
}

impl QueryMap {
    /// Look a key up; the value is the one of the last pair with that key.
    pub fn get(&self, k: &str) -> (r: Option<&String>)
        ensures
            match r {
                Some(v) => self@.contains_key(k@) && v@ == self@[k@],
                None => !self@.contains_key(k@),
            },
    {
        let ghost ps = pairs_view(self.pairs@);
        let n = self.pairs.len();
        let mut i: usize = n;
        while i > 0
            invariant
                i <= n,
                n == self.pairs.len(),
                ps == pairs_view(self.pairs@),
                forall|j: int| i <= j < n ==> ps[j].0 != k@,
            decreases i,
        {
            i -= 1;
            if str_eq(self.pairs[i].0.as_str(), k) {
                proof {
                    lemma_map_of_last(ps, k@);
                    assert(ps[i as int].0 == k@);
                }
                return Some(&self.pairs[i].1);
            }
        }
        proof {
            lemma_map_of_last(ps, k@);
        }
        None
    }
}

/// Split one `key=value` piece at the first `=`; a piece without `=`
/// degrades to an empty value.
pub open spec fn spec_pair(p: Seq<char>) -> (Seq<char>, Seq<char>) {
    let i = find_c(p, '=');
    if i < 0 || i >= p.len() {
        (p, Seq::empty())
    } else {
        (p.subrange(0, i), p.subrange(i + 1, p.len() as int))
    }
}

/// The pairs of a query string: split on `&`, each piece at its first `=`.
pub open spec fn spec_pairs(s: Seq<char>) -> Seq<(Seq<char>, Seq<char>)>
    decreases s.len(),
{
    let i = find_c(s, '&');
    if i < 0 || i >= s.len() {
        seq![spec_pair(s)]
    } else {
        seq![spec_pair(s.subrange(0, i))] + spec_pairs(s.subrange(i + 1, s.len() as int))
    }
}

fn split_pair(p: &str) -> (r: (String, String))
    ensures
        r.0@ == spec_pair(p@).0,
        r.1@ == spec_pair(p@).1,
{
    match find_char(p, '=') {
        Some(i) => {
            proof {
                lemma_find_c(p@, '=');
            }
            let n = p.unicode_len();
            let key = String::from_str(p.substring_char(0, i));
            let val = String::from_str(p.substring_char(i + 1, n));
            (key, val)
        },
        None => (String::from_str(p), String::new()),
    }
}

/// Parse a query string (or an url-encoded form body) into its mapping.
pub fn parse_query(body: &str) -> (r: QueryMap)
    ensures
        pairs_view(r.pairs@) == spec_pairs(body@),
        r@ == map_of(spec_pairs(body@)),
{
    let mut pairs: Vec<(String, String)> = Vec::new();
    let mut rest: &str = body;
    loop
        invariant_except_break
            spec_pairs(body@) == pairs_view(pairs@) + spec_pairs(rest@),
        ensures
            pairs_view(pairs@) == spec_pairs(body@),
        decreases rest@.len(),
    {
        let ghost prefix = pairs_view(pairs@);
        match find_char(rest, '&') {
            Some(i) => {
                proof {
                    lemma_find_c(rest@, '&');
                }
                let n = rest.unicode_len();
                let piece = rest.substring_char(0, i);
                let pr = split_pair(piece);
                pairs.push(pr);
                let tail = rest.substring_char(i + 1, n);
                proof {
                    assert(spec_pairs(rest@) == seq![spec_pair(rest@.subrange(0, i as int))]
                        + spec_pairs(tail@));
                    assert(pairs_view(pairs@) =~= prefix + seq![spec_pair(piece@)]);
                    assert(pairs_view(pairs@) + spec_pairs(tail@) =~= spec_pairs(body@));
                }
                rest = tail;
            },
            None => {
                let pr = split_pair(rest);
                pairs.push(pr);
                proof {
                    assert(spec_pairs(rest@) == seq![spec_pair(rest@)]);
                    assert(pairs_view(pairs@) =~= prefix + seq![spec_pair(rest@)]);
                    assert(pairs_view(pairs@) =~= spec_pairs(body@));
                }
                break;
            },
        }
    }
    QueryMap { pairs }
}

/// The request line: everything before the first line break, with a
/// trailing carriage return stripped.
pub open spec fn spec_request_line(s: Seq<char>) -> Seq<char> {
    let i = find_c(s, '\n');
    let l = if i < 0 || i > s.len() {
        s
    } else {
        s.subrange(0, i)
    };
    if l.len() > 0 && l.last() == '\r' {
        l.drop_last()
    } else {
        l
    }
}

/// The text after the leading whitespace.
pub open spec fn spec_rest(l: Seq<char>) -> Seq<char> {
    l.skip(spec_skip_ws(l))
}

/// The first whitespace-separated token.
pub open spec fn spec_tok(l: Seq<char>) -> Seq<char> {
    spec_rest(l).take(spec_take_tok(spec_rest(l)))
}

/// The text after the first token.
pub open spec fn spec_after_tok(l: Seq<char>) -> Seq<char> {
    spec_rest(l).skip(spec_take_tok(spec_rest(l)))
}

/// The second whitespace-separated token.
pub open spec fn spec_tok2(l: Seq<char>) -> Seq<char> {
    spec_tok(spec_after_tok(l))
}

/// The first token of `s` and the text after it.
fn first_token(s: &str) -> (r: (String, String))
    ensures
        r.0@ == spec_tok(s@),
        r.1@ == spec_after_tok(s@),
{
    proof {
        lemma_runs_bounded(s@);
    }
    let n = s.unicode_len();
    let a = skip_ws_len(s);
    let rest = s.substring_char(a, n);
    proof {
        lemma_runs_bounded(rest@);
    }
    let m = rest.unicode_len();
    let t = take_tok_len(rest);
    let tok = String::from_str(rest.substring_char(0, t));
    let after = String::from_str(rest.substring_char(t, m));
    (tok, after)
}

/// Everything after the first blank line of `t`, verbatim; empty when no
/// blank line is terminated by a line break.
pub open spec fn spec_after_blank(t: Seq<char>) -> Seq<char>
    decreases t.len(),
{
    let i = find_c(t, '\n');
    if i < 0 || i >= t.len() {
        Seq::empty()
    } else if spec_blank(t.subrange(0, i)) {
        t.subrange(i + 1, t.len() as int)
    } else {
        spec_after_blank(t.subrange(i + 1, t.len() as int))
    }
}

/// The body of a request: everything after the first blank line that
/// follows the request line.
pub open spec fn spec_body(s: Seq<char>) -> Seq<char> {
    let i = find_c(s, '\n');
    if i < 0 || i >= s.len() {
        Seq::empty()
    } else {
        spec_after_blank(s.subrange(i + 1, s.len() as int))
    }
}

/// The body of a request, executably: headers are skipped unread.
pub fn request_body(s: &str) -> (r: String)
    ensures
        r@ == spec_body(s@),
{
    match find_char(s, '\n') {
        None => String::new(),
        Some(i) => {
            proof {
                lemma_find_c(s@, '\n');
            }
            let n = s.unicode_len();
            let mut rest = s.substring_char(i + 1, n);
            loop
                invariant
                    spec_body(s@) == spec_after_blank(rest@),
                decreases rest@.len(),
            {
                match find_char(rest, '\n') {
                    None => {
                        return String::new();
                    },
                    Some(j) => {
                        proof {
                            lemma_find_c(rest@, '\n');
                        }
                        let m = rest.unicode_len();
                        let line = rest.substring_char(0, j);
                        let tail = rest.substring_char(j + 1, m);
                        if is_blank(line) {
                            return String::from_str(tail);
                        }
                        rest = tail;
                    },
                }
            }
        },
    }
}

/// A parsed request, as the contracts see it.
pub struct ReqView {
    pub method: Method,
    pub path: Seq<char>,
    pub query: Seq<(Seq<char>, Seq<char>)>,
    pub body: Seq<char>,
}

/// A parsed request: one method, one path, a query mapping and a raw body.
pub struct Request {
    pub method: Method,
    pub path: String,
    pub query: QueryMap,
    pub body: String,
}

impl View for Request {
    type V = ReqView;

    open spec fn view(&self) -> ReqView {
        ReqView {
            method: self.method,
            path: self.path@,
            query: pairs_view(self.query.pairs@),
            body: self.body@,
        }
    }
}

/// What parsing a raw request text yields: the method of the first token
/// (GET when absent), the second token split at its first `?` into the bare
/// path (the sentinel `/404` when absent) and the query string, and, for a
/// POST, the body after the first blank line.
pub open spec fn spec_parse(s: Seq<char>) -> Result<ReqView, ParseError> {
    let line = spec_request_line(s);
    match spec_method(spec_tok(line)) {
        Err(e) => Err(e),
        Ok(m) => {
            let ptok0 = spec_tok2(line);
            let ptok = if ptok0.len() == 0 {
                "/404"@
            } else {
                ptok0
            };
            let q = find_c(ptok, '?');
            let path = if q < 0 || q >= ptok.len() {
                ptok
            } else {
                ptok.subrange(0, q)
            };
            let qstr = if q < 0 || q >= ptok.len() {
                Seq::<char>::empty()
            } else {
                ptok.subrange(q + 1, ptok.len() as int)
            };
            let body = if m == Method::Post {
                spec_body(s)
            } else {
                Seq::<char>::empty()
            };
            Ok(ReqView { method: m, path, query: spec_pairs(qstr), body })
        },
    }
}

/// Parse one raw request text into a structured request.
pub fn parse_request(raw: &str) -> (r: Result<Request, ParseError>)
    ensures
        match (r, spec_parse(raw@)) {
            (Ok(req), Ok(rv)) => req@ == rv,
            (Err(e), Err(e2)) => e == e2,
            _ => false,
        },
{
    let n = raw.unicode_len();
    let line = match find_char(raw, '\n') {
        Some(i) => {
            proof {
                lemma_find_c(raw@, '\n');
            }
            raw.substring_char(0, i)
        },
        None => raw,
    };
    let ll = line.unicode_len();
    let line = if ll > 0 && line.get_char(ll - 1) == '\r' {
        let stripped = line.substring_char(0, ll - 1);
        proof {
            assert(stripped@ =~= line@.drop_last());
        }
        stripped
    } else {
        line
    };
    proof {
        assert(line@ == spec_request_line(raw@));
    }
    let (mtok, after) = first_token(line);
    let (ptok0, _after2) = first_token(after.as_str());
    let method = match Method::from(mtok.as_str()) {
        Ok(m) => m,
        Err(e) => {
            return Err(e);
        },
    };
    let ptok = if ptok0.as_str().unicode_len() == 0 {
        String::from_str("/404")
    } else {
        ptok0
    };
    let pn = ptok.as_str().unicode_len();
    let (path, qstr) = match find_char(ptok.as_str(), '?') {
        Some(q) => {
            proof {
                lemma_find_c(ptok@, '?');
            }
            let p = String::from_str(ptok.as_str().substring_char(0, q));
            let qs = String::from_str(ptok.as_str().substring_char(q + 1, pn));
            (p, qs)
        },
        None => (ptok, String::new()),
    };
    let query = parse_query(qstr.as_str());
    let body = if method == Method::Post {
        request_body(raw)
    } else {
        String::new()
    };
    Ok(Request { method, path, query, body })
}

/// For every parsed request and every pair of its query string that is the
/// last one with its key, the query mapping holds that key and carries
/// exactly that pair's value: a later duplicate always wins.
pub proof fn lemma_query_last_wins(s: Seq<char>, rv: ReqView, i: int)
    requires
        spec_parse(s) == Ok::<ReqView, ParseError>(rv),
        0 <= i < rv.query.len(),
        forall|j: int| i < j < rv.query.len() ==> rv.query[j].0 != rv.query[i].0,
    ensures
        map_of(rv.query).contains_key(rv.query[i].0),
        map_of(rv.query)[rv.query[i].0] == rv.query[i].1,
{
    lemma_map_of_last(rv.query, rv.query[i].0);
}

/// The path of every parsed request excludes the query string: no `?`
/// occurs in it.
pub proof fn lemma_path_excludes_query(s: Seq<char>, rv: ReqView)
    requires
        spec_parse(s) == Ok::<ReqView, ParseError>(rv),
    ensures
        forall|j: int| 0 <= j < rv.path.len() ==> rv.path[j] != '?',
{
    let line = spec_request_line(s);
    let ptok0 = spec_tok2(line);
    let ptok = if ptok0.len() == 0 {
        "/404"@
    } else {
        ptok0
    };
    lemma_find_c(ptok, '?');
    if ptok0.len() == 0 {
        reveal_strlit("/404");
        assert(ptok.len() == 4);
        if find_c(ptok, '?') >= 0 {
            assert(ptok[find_c(ptok, '?')] == '?');
            assert(false);
        }
    }
    let q = find_c(ptok, '?');
    if q < 0 || q >= ptok.len() {
        assert(rv.path == ptok);
    } else {
        assert(rv.path == ptok.subrange(0, q));
        assert(forall|j: int| 0 <= j < q ==> ptok[j] != '?');
    }
}

} // verus!
