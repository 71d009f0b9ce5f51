use gif_server::content::ContentTable;
use gif_server::render::giphy_card;
use gif_server::render::render_cards;
use gif_server::request::Method;
use gif_server::request::ParseError;
use gif_server::request::Route;
use gif_server::request::parse_query;
use gif_server::request::parse_request;
use gif_server::request::request_body;
use gif_server::response::Response;
use gif_server::response::Status;
use gif_server::response::html_response;
use gif_server::search::Downsized;
use gif_server::search::FetchOutcome;
use gif_server::search::Gif;
use gif_server::search::GiphyResponse;
use gif_server::search::Images;
use gif_server::search::UpstreamError;
use gif_server::search::build_search_url;
use gif_server::search::gif_urls;
use gif_server::search::search_response;
use gif_server::search::search_urls;
use gif_server::server::Config;
use gif_server::server::Step;
use gif_server::server::on_read;

fn gif(url: &str) -> Gif {
    Gif { images: Images { downsized: Downsized { url: url.to_string() } } }
}

fn test_config() -> Config {
    Config { api_key: "k123".to_string() }
}

fn test_table() -> ContentTable {
    let mut table = ContentTable::new();
    table.insert(Route::Index, "<h1>Home</h1>".to_string());
    table.insert(Route::Hello, "<h1>Hello</h1>".to_string());
    table.insert(Route::NotFound, "<h1>WHOA WTF WHERE AM I????</h1>".to_string());
    table
}

#[test]
fn format_200_byte_exact() {
    let r = html_response(200, "X");
    assert_eq!(r, "HTTP/1.1 200 OK\r\nContent-Type: text/html\r\n\r\nX");
}

#[test]
fn format_404_byte_exact() {
    let r = html_response(404, "gone");
    assert_eq!(r, "HTTP/1.1 404 NOT FOUND\r\nContent-Type: text/html\r\n\r\ngone");
}

#[test]
fn query_last_value_wins() {
    let q = parse_query("a=1&b=2&a=3");
    assert_eq!(q.get("a").unwrap(), "3");
    assert_eq!(q.get("b").unwrap(), "2");
    assert!(q.get("c").is_none());
}

#[test]
fn query_malformed_pairs_degrade() {
    let q = parse_query("x");
    assert_eq!(q.get("x").unwrap(), "");
    let q = parse_query("=v");
    assert_eq!(q.get("").unwrap(), "v");
    let q = parse_query("a=b=c");
    assert_eq!(q.get("a").unwrap(), "b=c");
}

#[test]
fn parse_splits_path_and_query() {
    let req = parse_request("GET /search?q=cat&q=dog HTTP/1.1\r\nHost: x\r\n\r\n").unwrap();
    assert_eq!(req.method, Method::Get);
    assert_eq!(req.path, "/search");
    assert_eq!(req.query.get("q").unwrap(), "dog");
    assert_eq!(req.body, "");
}

#[test]
fn parse_empty_request_uses_defaults() {
    let req = parse_request("").unwrap();
    assert_eq!(req.method, Method::Get);
    assert_eq!(req.path, "/404");
}

#[test]
fn parse_missing_path_uses_sentinel() {
    let req = parse_request("GET\r\n\r\n").unwrap();
    assert_eq!(req.method, Method::Get);
    assert_eq!(req.path, "/404");
}

#[test]
fn parse_unknown_method_is_error() {
    let r = parse_request("PUT / HTTP/1.1\r\n\r\n");
    assert!(matches!(r, Err(ParseError::UnsupportedMethod)));
}

#[test]
fn parse_post_takes_body_after_blank_line() {
    let req = parse_request("POST /send HTTP/1.1\r\nHost: h\r\nAccept: */*\r\n\r\nhello=world").unwrap();
    assert_eq!(req.method, Method::Post);
    assert_eq!(req.path, "/send");
    assert_eq!(req.body, "hello=world");
}

#[test]
fn body_empty_without_blank_line() {
    assert_eq!(request_body("POST /send HTTP/1.1\r\nHost: h"), "");
    assert_eq!(request_body("POST /send HTTP/1.1\r\nHost: h\r\n\r\n"), "");
}

#[test]
fn route_table_is_fixed() {
    assert_eq!(Route::from("/"), Route::Index);
    assert_eq!(Route::from("/hello"), Route::Hello);
    assert_eq!(Route::from("/send"), Route::Send);
    assert_eq!(Route::from("/search"), Route::Search);
    assert_eq!(Route::from("/nope"), Route::NotFound);
    assert_eq!(Route::from(""), Route::NotFound);
}

#[test]
fn dispatch_off_table_is_not_found() {
    let req = parse_request("POST / HTTP/1.1\r\n\r\n").unwrap();
    let resp = Response::from(req);
    assert_eq!(resp.status, Status::NotFound);
    assert_eq!(resp.route, Route::NotFound);
    let framed = html_response(resp.status.code(), "x");
    assert!(framed.starts_with("HTTP/1.1 404 NOT FOUND\r\n"));
}

#[test]
fn dispatch_on_table_is_okay() {
    let req = parse_request("GET / HTTP/1.1\r\n\r\n").unwrap();
    let resp = Response::from(req);
    assert_eq!(resp.status, Status::Okay);
    assert_eq!(resp.route, Route::Index);
    let req = parse_request("POST /search HTTP/1.1\r\n\r\nsearch=x").unwrap();
    let resp = Response::from(req);
    assert_eq!(resp.status, Status::Okay);
    assert_eq!(resp.route, Route::Search);
}

#[test]
fn card_substitutes_url_verbatim() {
    let c = giphy_card("http://u/1.gif");
    assert_eq!(c, "<div class=\"giphy-card\"><img src=\"http://u/1.gif\"></div>");
}

#[test]
fn render_empty_sequence_is_empty() {
    let r = render_cards(&vec![]);
    assert_eq!(r, "");
}

#[test]
fn render_keeps_order_and_count() {
    let urls = vec!["http://u/1.gif".to_string(), "http://u/2.gif".to_string()];
    let r = render_cards(&urls);
    let expected = format!("{}{}", giphy_card("http://u/1.gif"), giphy_card("http://u/2.gif"));
    assert_eq!(r, expected);
}

#[test]
fn gif_urls_keep_order() {
    let g = GiphyResponse { data: vec![gif("a"), gif("b"), gif("c")] };
    assert_eq!(gif_urls(&g), vec!["a", "b", "c"]);
}

#[test]
fn search_url_is_exact() {
    let u = build_search_url("KEY", "cats");
    assert_eq!(
        u,
        "https://api.giphy.com/v1/gifs/search?api_key=KEY&q=cats&limit=25&offset=0"
    );
}

#[test]
fn upstream_network_failure_classified() {
    assert_eq!(search_urls(&FetchOutcome::Failed).unwrap_err(), UpstreamError::Network);
}

#[test]
fn upstream_bad_status_classified() {
    let f = FetchOutcome::Replied { status: 500, payload: None };
    assert_eq!(search_urls(&f).unwrap_err(), UpstreamError::BadStatus);
    let f = FetchOutcome::Replied {
        status: 404,
        payload: Some(GiphyResponse { data: vec![gif("a")] }),
    };
    assert_eq!(search_urls(&f).unwrap_err(), UpstreamError::BadStatus);
}

#[test]
fn upstream_malformed_payload_classified() {
    let f = FetchOutcome::Replied { status: 200, payload: None };
    assert_eq!(search_urls(&f).unwrap_err(), UpstreamError::MalformedPayload);
}

#[test]
fn upstream_success_yields_urls() {
    let f = FetchOutcome::Replied {
        status: 200,
        payload: Some(GiphyResponse { data: vec![gif("a"), gif("b")] }),
    };
    assert_eq!(search_urls(&f).unwrap(), vec!["a", "b"]);
}

#[test]
fn upstream_failure_still_answers_client() {
    let r = search_response(&FetchOutcome::Failed);
    assert!(r.starts_with("HTTP/1.1 200 OK\r\nContent-Type: text/html\r\n\r\n"));
    assert!(r.contains("<p>Search failed"));
    let r = search_response(&FetchOutcome::Replied { status: 200, payload: None });
    assert!(r.starts_with("HTTP/1.1 200 OK\r\n"));
    assert!(r.contains("unreadable"));
}

#[test]
fn zero_length_read_closes_without_write() {
    let step = on_read(&[], &test_table(), &test_config());
    assert!(matches!(step, Step::Close));
}

#[test]
fn end_to_end_index() {
    let step = on_read(b"GET / HTTP/1.1\r\n\r\n", &test_table(), &test_config());
    match step {
        Step::Reply(r) => {
            assert!(r.starts_with("HTTP/1.1 200 OK"));
            assert_eq!(r, "HTTP/1.1 200 OK\r\nContent-Type: text/html\r\n\r\n<h1>Home</h1>");
        }
        _ => panic!("expected a reply"),
    }
}

#[test]
fn end_to_end_unknown_path() {
    let step = on_read(b"GET /nope HTTP/1.1\r\n\r\n", &test_table(), &test_config());
    match step {
        Step::Reply(r) => assert!(r.starts_with("HTTP/1.1 404 NOT FOUND")),
        _ => panic!("expected a reply"),
    }
}

#[test]
fn end_to_end_search_with_stubbed_upstream() {
    let step = on_read(
        b"POST /search HTTP/1.1\r\nHost: h\r\n\r\nsearch=cats",
        &test_table(),
        &test_config(),
    );
    match step {
        Step::Search(url) => {
            assert_eq!(
                url,
                "https://api.giphy.com/v1/gifs/search?api_key=k123&q=cats&limit=25&offset=0"
            );
        }
        _ => panic!("expected a search step"),
    }
    let outcome = FetchOutcome::Replied {
        status: 200,
        payload: Some(GiphyResponse { data: vec![gif("http://u/1.gif"), gif("http://u/2.gif")] }),
    };
    let r = search_response(&outcome);
    let expected_body =
        format!("{}{}", giphy_card("http://u/1.gif"), giphy_card("http://u/2.gif"));
    assert_eq!(
        r,
        format!("HTTP/1.1 200 OK\r\nContent-Type: text/html\r\n\r\n{}", expected_body)
    );
}

#[test]
fn get_search_uses_url_query() {
    let step = on_read(b"GET /search?search=dogs HTTP/1.1\r\n\r\n", &test_table(), &test_config());
    match step {
        Step::Search(url) => assert!(url.contains("&q=dogs&")),
        _ => panic!("expected a search step"),
    }
}

#[test]
fn post_search_without_field_degrades_to_empty_query() {
    let step = on_read(b"POST /search HTTP/1.1\r\n\r\nother=1", &test_table(), &test_config());
    match step {
        Step::Search(url) => {
            assert_eq!(
                url,
                "https://api.giphy.com/v1/gifs/search?api_key=k123&q=&limit=25&offset=0"
            );
        }
        _ => panic!("expected a search step"),
    }
}

#[test]
fn post_search_last_duplicate_wins() {
    let step = on_read(
        b"POST /search HTTP/1.1\r\n\r\nsearch=cats&search=dogs",
        &test_table(),
        &test_config(),
    );
    match step {
        Step::Search(url) => assert!(url.contains("&q=dogs&")),
        _ => panic!("expected a search step"),
    }
}

#[test]
fn invalid_utf8_is_decoded_lossily() {
    let step = on_read(b"G\xffET / HTTP/1.1\r\n\r\n", &test_table(), &test_config());
    match step {
        Step::Reply(r) => assert!(r.starts_with("HTTP/1.1 404 NOT FOUND")),
        _ => panic!("expected a reply"),
    }
}

#[test]
fn unsupported_method_gets_not_found_reply() {
    let step = on_read(b"PUT / HTTP/1.1\r\n\r\n", &test_table(), &test_config());
    match step {
        Step::Reply(r) => {
            assert!(r.starts_with("HTTP/1.1 404 NOT FOUND"));
            assert!(r.ends_with("<h1>WHOA WTF WHERE AM I????</h1>"));
        }
        _ => panic!("expected a reply"),
    }
}

#[test]
fn missing_content_degrades_to_placeholder() {
    let mut table = ContentTable::new();
    table.insert(Route::NotFound, "nf".to_string());
    let step = on_read(b"GET /hello HTTP/1.1\r\n\r\n", &table, &test_config());
    match step {
        Step::Reply(r) => {
            assert_eq!(r, "HTTP/1.1 200 OK\r\nContent-Type: text/html\r\n\r\nError reading file");
        }
        _ => panic!("expected a reply"),
    }
}

#[test]
fn content_table_last_insert_wins() {
    let mut table = ContentTable::new();
    table.insert(Route::Index, "a".to_string());
    table.insert(Route::Index, "b".to_string());
    assert_eq!(table.content(Route::Index), "b");
    assert_eq!(table.content(Route::Hello), "Error reading file");
}

#[test]
fn method_tokens() {
    assert_eq!(Method::from("GET").unwrap(), Method::Get);
    assert_eq!(Method::from("POST").unwrap(), Method::Post);
    assert_eq!(Method::from("").unwrap(), Method::Get);
    assert_eq!(Method::from("get").unwrap_err(), ParseError::UnsupportedMethod);
}

#[test]
fn route_names() {
    assert_eq!(Route::Index.name(), "index");
    assert_eq!(Route::Hello.name(), "hello");
    assert_eq!(Route::Send.name(), "send");
    assert_eq!(Route::NotFound.name(), "404");
    assert_eq!(Route::Search.name(), "search");
}

#[test]
fn status_codes() {
    assert_eq!(Status::Okay.code(), 200);
    assert_eq!(Status::NotFound.code(), 404);
}
