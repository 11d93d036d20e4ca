use pinboard_rs::api::v1::posts::Recent;
use pinboard_rs::api::{
    ApiError, Client, FromBody, Method, Query, Request, Response, RestClient,
};
use pinboard_rs::auth::{Auth, AuthError};
use pinboard_rs::pinboard::{exchange_outcome, AuthStyle, RestError, Transport};
use pinboard_rs::{Pinboard, PinboardError};
use std::cell::RefCell;
use url::Url;

struct Recorder {
    seen: RefCell<Vec<(String, http::HeaderMap, Vec<u8>)>>,
    fail: bool,
}

impl Recorder {
    fn new() -> Self {
        Recorder {
            seen: RefCell::new(Vec::new()),
            fail: false,
        }
    }
}

impl Transport for &Recorder {
    type Error = String;

    fn send(
        &self,
        request: Request,
        headers: http::HeaderMap,
        body: Vec<u8>,
    ) -> Result<Response, String> {
        assert_eq!(request.method, Method::Get);
        self.seen
            .borrow_mut()
            .push((request.url.to_string(), headers, body));
        if self.fail {
            return Err("unreachable host".to_string());
        }
        Ok(Response {
            status: 200,
            headers: http::HeaderMap::new(),
            body: b"{}".to_vec(),
        })
    }
}

fn request(url: Url) -> Request {
    Request {
        method: Method::Get,
        url,
    }
}

#[test]
fn token_is_added_to_the_url() {
    let auth = Auth::Token("abc123".to_string());
    let mut url = Url::parse("https://api.pinboard.in/v1/posts/recent?count=3").unwrap();
    assert!(auth.fits_url(&url));
    auth.add_to_url(&mut url);
    assert_eq!(
        url.as_str(),
        "https://api.pinboard.in/v1/posts/recent?count=3&auth_token=abc123"
    );
}

#[test]
fn token_is_set_as_a_sensitive_header() {
    let auth = Auth::Token("abc123".to_string());
    let mut headers = http::HeaderMap::new();
    headers.insert("accept", http::HeaderValue::from_static("*/*"));
    headers.insert("x-auth-token", http::HeaderValue::from_static("stale"));
    assert!(Auth::has_room(&headers));
    auth.set_header(&mut headers).unwrap();

    assert_eq!(headers.len(), 2);
    assert_eq!(headers.get("accept").unwrap(), "*/*");
    let all: Vec<_> = headers.get_all("X-Auth-Token").iter().collect();
    assert_eq!(all.len(), 1);
    assert_eq!(all[0].as_bytes(), b"abc123");
    assert!(all[0].is_sensitive());
    assert_eq!(format!("{:?}", all[0]), "Sensitive");
}

#[test]
fn token_with_a_control_character_is_refused() {
    for token in ["abc\n123", "abc\u{7f}", "\u{0}", "a\rb"] {
        let auth = Auth::Token(token.to_string());
        let mut headers = http::HeaderMap::new();
        let refused = auth.set_header(&mut headers);
        assert!(matches!(
            refused,
            Err(AuthError::InvalidCredential { .. })
        ));
        assert!(headers.is_empty());
    }
    for token in ["", "abc 123", "tab\there", "caf\u{e9}"] {
        let auth = Auth::Token(token.to_string());
        let mut headers = http::HeaderMap::new();
        assert!(auth.set_header(&mut headers).is_ok());
        assert_eq!(
            headers.get("x-auth-token").unwrap().as_bytes(),
            token.as_bytes()
        );
    }
}

#[test]
fn url_mode_puts_the_token_into_the_url_only() {
    let recorder = Recorder::new();
    let client = Pinboard::new("api.pinboard.in", "abc123", &recorder).unwrap();

    let url = client.rest_endpoint("v1/posts/recent").unwrap();
    assert_eq!(url.as_str(), "https://api.pinboard.in/v1/posts/recent");
    assert!(client.decoration_fits(&url));
    let sent = client.decorate(request(url.clone()));
    assert_eq!(sent.method, Method::Get);
    assert!(sent
        .url
        .query_pairs()
        .any(|(k, v)| k == "auth_token" && v == "abc123"));
    assert!(client.request_headers().unwrap().is_empty());

    let response = client.rest(request(url), Vec::new()).unwrap();
    assert_eq!(response.status, 200);
    let seen = recorder.seen.borrow();
    assert_eq!(seen.len(), 1);
    assert_eq!(
        seen[0].0,
        "https://api.pinboard.in/v1/posts/recent?format=json&auth_token=abc123"
    );
    assert!(seen[0].1.is_empty());
    assert!(seen[0].2.is_empty());
}

#[test]
fn header_mode_puts_the_token_into_a_header_only() {
    let recorder = Recorder::new();
    let client = Pinboard::with_header_auth("api.pinboard.in", "abc123", &recorder).unwrap();

    let url = client.rest_endpoint("v1/posts/recent?count=3").unwrap();
    assert_eq!(
        url.as_str(),
        "https://api.pinboard.in/v1/posts/recent?count=3"
    );

    client.rest(request(url), Vec::new()).unwrap();
    let seen = recorder.seen.borrow();
    assert_eq!(seen.len(), 1);
    assert_eq!(
        seen[0].0,
        "https://api.pinboard.in/v1/posts/recent?count=3&format=json"
    );
    let value = seen[0].1.get("X-Auth-Token").unwrap();
    assert_eq!(value.as_bytes(), b"abc123");
    assert!(value.is_sensitive());
    assert_eq!(seen[0].1.len(), 1);
}

#[test]
fn header_mode_refuses_a_token_that_no_header_can_hold() {
    let recorder = Recorder::new();
    let client = Pinboard::with_header_auth("api.pinboard.in", "abc\n123", &recorder).unwrap();
    let url = client.rest_endpoint("v1/posts/recent").unwrap();

    match client.rest(request(url), Vec::new()) {
        Err(ApiError::Client {
            source: RestError::AuthError { .. },
        }) => {}
        _ => panic!("expected the credential to be refused"),
    }
    assert!(recorder.seen.borrow().is_empty());
}

#[test]
fn a_failed_exchange_is_a_client_error() {
    let mut recorder = Recorder::new();
    recorder.fail = true;
    let client = Pinboard::new("api.pinboard.in", "abc123", &recorder).unwrap();
    let url = client.rest_endpoint("v1/posts/recent").unwrap();

    match client.rest(request(url), Vec::new()) {
        Err(ApiError::Client {
            source: RestError::Communication { source },
        }) => assert_eq!(source, "unreachable host"),
        _ => panic!("expected the transport's error"),
    }
}

#[test]
fn the_debug_text_leaves_the_token_out() {
    let recorder = Recorder::new();
    let client = Pinboard::new("api.pinboard.in", "abc123", &recorder).unwrap();
    assert_eq!(
        client.debug_text(),
        "Pinboard { url: \"https://api.pinboard.in/\" }"
    );
    assert!(!client.debug_text().contains("abc123"));
    let client = Pinboard::with_header_auth("api.pinboard.in", "abc123", &recorder).unwrap();
    assert!(!client.debug_text().contains("abc123"));
    assert_eq!(AuthStyle::Url, AuthStyle::Url);
}

#[test]
fn a_host_that_makes_no_url_is_refused() {
    let recorder = Recorder::new();
    assert!(matches!(
        Pinboard::new("not a host", "abc123", &recorder),
        Err(PinboardError::UrlParse { .. })
    ));
    assert!(matches!(
        Pinboard::new("", "abc123", &recorder),
        Err(PinboardError::UrlParse { .. })
    ));
}

#[test]
fn a_path_is_joined_to_the_base() {
    let recorder = Recorder::new();
    let client = Pinboard::with_header_auth("api.pinboard.in", "t", &recorder).unwrap();
    assert_eq!(
        client.endpoint_url("v1/notes/ID/").unwrap().as_str(),
        "https://api.pinboard.in/v1/notes/ID/"
    );
    assert_eq!(
        client.endpoint_url("/v1/posts/get?x=1").unwrap().as_str(),
        "https://api.pinboard.in/v1/posts/get?x=1"
    );
    assert!(client.endpoint_url("https://[").is_err());
    assert!(matches!(
        client.rest_endpoint("https://["),
        Err(ApiError::UrlParse { .. })
    ));
}

struct Body(Vec<u8>);

impl FromBody for Body {
    fn from_body(body: &[u8]) -> Result<Self, serde_json::Error> {
        Ok(Body(body.to_vec()))
    }

    fn type_label() -> &'static str {
        "Body"
    }
}

#[test]
fn a_query_sends_parameters_then_format_then_token() {
    let recorder = Recorder::new();
    let client = Pinboard::new("api.pinboard.in", "abc123", &recorder).unwrap();
    let endpoint = Recent::builder().count(3).build().unwrap();

    let Body(body) = endpoint.query(&client).unwrap();
    assert_eq!(body, b"{}".to_vec());
    let seen = recorder.seen.borrow();
    assert_eq!(seen.len(), 1);
    assert_eq!(
        seen[0].0,
        "https://api.pinboard.in/v1/posts/recent?count=3&format=json&auth_token=abc123"
    );
    assert!(seen[0].2.is_empty());
}

#[test]
fn the_base_url_is_the_host_as_the_url_crate_reads_it() {
    let recorder = Recorder::new();
    let client = Pinboard::new("API.Pinboard.IN", "abc123", &recorder).unwrap();
    assert_eq!(
        client.debug_text(),
        "Pinboard { url: \"https://api.pinboard.in/\" }"
    );
    let client = Pinboard::new("localhost:8080/api", "abc123", &recorder).unwrap();
    assert_eq!(
        client.endpoint_url("v1/posts/all").unwrap().as_str(),
        "https://localhost:8080/api/v1/posts/all"
    );
}

#[test]
fn an_exchange_comes_to_its_response_or_a_client_error() {
    let response = Response {
        status: 201,
        headers: http::HeaderMap::new(),
        body: b"made".to_vec(),
    };
    let passed = exchange_outcome::<String>(Ok(response)).unwrap();
    assert_eq!(passed.status, 201);
    assert_eq!(passed.body, b"made".to_vec());
    match exchange_outcome(Err("timed out".to_string())) {
        Err(ApiError::Client {
            source: RestError::Communication { source },
        }) => assert_eq!(source, "timed out"),
        _ => panic!("expected the transport's error"),
    }
}

#[test]
fn an_exchange_hands_the_decorated_request_to_its_transport() {
    let recorder = Recorder::new();
    let client = Pinboard::with_header_auth("api.pinboard.in", "abc123", &recorder).unwrap();
    let url = Url::parse("https://api.pinboard.in/v1/tags/get").unwrap();

    let outcome = client.exchange(
        request(url),
        b"body".to_vec(),
        |sent: Request, headers: http::HeaderMap, body: Vec<u8>| {
            assert_eq!(sent.url.as_str(), "https://api.pinboard.in/v1/tags/get?format=json");
            assert_eq!(headers.get("x-auth-token").unwrap().as_bytes(), b"abc123");
            assert_eq!(body, b"body".to_vec());
            Err::<Response, u8>(7)
        },
    );
    match outcome {
        Err(ApiError::Client {
            source: RestError::Communication { source },
        }) => assert_eq!(source, 7),
        _ => panic!("expected the transport's error"),
    }
    assert!(recorder.seen.borrow().is_empty());
}

#[test]
fn a_crowded_header_map_has_no_room() {
    let mut headers = http::HeaderMap::new();
    for i in 0..6553 {
        let name = http::header::HeaderName::from_bytes(format!("x-{}", i).as_bytes()).unwrap();
        headers.insert(name, http::HeaderValue::from_static("v"));
    }
    assert!(Auth::has_room(&headers));
    let auth = Auth::Token("abc123".to_string());
    auth.set_header(&mut headers).unwrap();
    assert_eq!(headers.len(), 6554);
    assert!(!Auth::has_room(&headers));
}

#[test]
fn setting_the_token_counts_one_value_under_its_name() {
    let auth = Auth::Token("abc123".to_string());
    let mut headers = http::HeaderMap::new();
    auth.set_header(&mut headers).unwrap();
    assert_eq!(headers.len(), 1);
    assert_eq!(headers["X-Auth-Token"], "abc123");
    assert!(headers["X-Auth-Token"].is_sensitive());

    let mut headers = http::HeaderMap::new();
    headers.insert("accept", http::HeaderValue::from_static("*/*"));
    headers.append("accept", http::HeaderValue::from_static("text/html"));
    headers.insert("x-auth-token", http::HeaderValue::from_static("one"));
    headers.append("x-auth-token", http::HeaderValue::from_static("two"));
    headers.append("x-auth-token", http::HeaderValue::from_static("three"));
    assert_eq!(headers.len(), 5);
    auth.set_header(&mut headers).unwrap();
    assert_eq!(headers.len(), 3);
    let tokens: Vec<_> = headers.get_all("x-auth-token").iter().collect();
    assert_eq!(tokens.len(), 1);
    assert_eq!(tokens[0].as_bytes(), b"abc123");
    assert!(tokens[0].is_sensitive());
    let accepted: Vec<_> = headers.get_all("accept").iter().collect();
    assert_eq!(accepted.len(), 2);
    assert_eq!(accepted[0], "*/*");
    assert_eq!(accepted[1], "text/html");
}

#[test]
fn the_token_is_appended_before_the_fragment() {
    let auth = Auth::Token("a b".to_string());
    let mut url = Url::parse("https://api.pinboard.in/v1/posts/get?x=1#part").unwrap();
    auth.add_to_url(&mut url);
    assert_eq!(
        url.as_str(),
        "https://api.pinboard.in/v1/posts/get?x=1&auth_token=a+b#part"
    );
    assert_eq!(url.fragment(), Some("part"));
    assert_eq!(url.path(), "/v1/posts/get");
    let pairs: Vec<(String, String)> = url.query_pairs().into_owned().collect();
    assert_eq!(
        pairs,
        vec![
            ("x".to_string(), "1".to_string()),
            ("auth_token".to_string(), "a b".to_string())
        ]
    );
}

#[test]
fn a_request_is_made_ready_with_its_headers() {
    let recorder = Recorder::new();
    let client = Pinboard::with_header_auth("api.pinboard.in", "abc123", &recorder).unwrap();
    let url = Url::parse("https://api.pinboard.in/v1/tags/get#top").unwrap();
    let (sent, headers) = client.outgoing::<String>(request(url)).unwrap();
    assert_eq!(sent.method, Method::Get);
    assert_eq!(
        sent.url.as_str(),
        "https://api.pinboard.in/v1/tags/get?format=json#top"
    );
    assert_eq!(headers.len(), 1);
    assert!(headers["x-auth-token"].is_sensitive());

    let client = Pinboard::new("api.pinboard.in", "abc123", &recorder).unwrap();
    let url = Url::parse("https://api.pinboard.in/v1/tags/get").unwrap();
    let (sent, headers) = client.outgoing::<String>(request(url)).unwrap();
    assert_eq!(
        sent.url.as_str(),
        "https://api.pinboard.in/v1/tags/get?format=json&auth_token=abc123"
    );
    assert!(headers.is_empty());

    let client = Pinboard::with_header_auth("api.pinboard.in", "abc\n", &recorder).unwrap();
    let url = Url::parse("https://api.pinboard.in/v1/tags/get").unwrap();
    assert!(matches!(
        client.outgoing::<String>(request(url)),
        Err(ApiError::Client {
            source: RestError::AuthError { .. }
        })
    ));
    assert!(recorder.seen.borrow().is_empty());
}

#[test]
fn a_copy_of_the_client_sends_through_a_copy_of_the_transport() {
    let recorder = Recorder::new();
    let client = Pinboard::new("api.pinboard.in", "abc123", &recorder).unwrap();
    let copy = client.clone();
    assert_eq!(copy.debug_text(), client.debug_text());
    let url = copy.rest_endpoint("v1/posts/update").unwrap();
    copy.rest(request(url), Vec::new()).unwrap();
    assert_eq!(
        recorder.seen.borrow()[0].0,
        "https://api.pinboard.in/v1/posts/update?format=json&auth_token=abc123"
    );
}
