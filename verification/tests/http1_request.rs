use habanero::headers::Headers;
use habanero::http1::request::Builder;
use habanero::http1::{Request, Verb};
use std::collections::BTreeMap;

fn listed(headers: &Headers) -> Vec<(String, String)> {
    let mut out = Vec::new();
    let mut i = 0;
    while let Some((key, value)) = headers.entry(i) {
        out.push((key.to_string(), value.to_string()));
        i += 1;
    }
    assert_eq!(i, headers.len());
    out
}

fn sorted(map: BTreeMap<String, String>) -> Vec<(String, String)> {
    map.into_iter().collect()
}

// Builder

#[test]
fn request_builder_new_success() {
    let expected = Request::new(Verb::Post, String::from("/"), Headers::new(), String::new());
    let actual = Builder::new(Verb::Post, "/");
    assert_eq!(expected, actual.clone().create());
    assert_eq!(Request::build(Verb::Post, "/"), actual);
    let request = actual.create();
    assert_eq!("", request.body());
    assert_eq!(0, request.headers().len());
    assert_eq!("/", request.target());
    assert_eq!(Verb::Post, *request.verb());
}

#[test]
fn request_builder_body_success() {
    let expected = String::from("Hello World");
    let actual = Builder::new(Verb::Get, "/").body("Hello World").create();
    assert_eq!(expected, actual.body());
}

#[test]
fn request_builder_body_overwrite() {
    let expected = String::from("Hello World");
    let actual = Builder::new(Verb::Get, "/")
        .body("Overwritten")
        .body("Hello World")
        .create();
    assert_eq!(expected, actual.body());
}

#[test]
fn request_builder_create_success() {
    let mut headers = Headers::new();
    headers.insert(String::from("Content-Type"), String::from("text/plain"));
    let expected = Request::new(
        Verb::Post,
        String::from("/"),
        headers,
        String::from("Hello World"),
    );
    let actual = Builder::new(Verb::Post, "/")
        .header("Content-Type", "text/plain")
        .body("Hello World")
        .create();
    assert_eq!(expected, actual);
}

#[test]
fn request_builder_header_success() {
    let expected = BTreeMap::from([(String::from("Key"), String::from("Hello World"))]);
    let actual = Builder::new(Verb::Get, "/")
        .header("Key", "Hello World")
        .create();
    assert_eq!(sorted(expected), listed(actual.headers()));
}

#[test]
fn request_builder_header_overwrite() {
    let expected = BTreeMap::from([(String::from("Key"), String::from("Hello World"))]);
    let actual = Builder::new(Verb::Get, "/")
        .header("Key", "Overwritten")
        .header("Key", "Hello World")
        .create();
    assert_eq!(sorted(expected), listed(actual.headers()));
}

#[test]
fn request_builder_json_success() {
    let expected = Builder::new(Verb::Post, "/").json("{ ... }");
    let actual = Builder::new(Verb::Post, "/")
        .body("{ ... }")
        .header("Content-Type", "application/json")
        .header("Content-Length", "7");
    assert_eq!(expected, actual);
}

#[test]
fn request_builder_url_encoded_success() {
    let expected = Builder::new(Verb::Post, "/").url_encoded("key=value");
    let actual = Builder::new(Verb::Post, "/")
        .body("key=value")
        .header("Content-Type", "application/x-www-form-urlencoded")
        .header("Content-Length", "9");
    assert_eq!(expected, actual);
}

// Request

#[test]
fn request_request_new_success() {
    let expected = Request::build(Verb::Post, "/").create();
    let actual = Request::new(Verb::Post, String::from("/"), Headers::new(), String::new());
    assert_eq!(expected, actual);
    assert_eq!("", actual.body());
    assert_eq!(0, actual.headers().len());
    assert_eq!("/", actual.target());
    assert_eq!(Verb::Post, *actual.verb());
}

#[test]
fn request_body_success() {
    let expected = "Hello World";
    let request = Request::build(Verb::Post, "/").body("Hello World").create();
    let actual = request.body();
    assert_eq!(expected, actual);
}

#[test]
fn request_build_success() {
    let expected = Builder::new(Verb::Post, "/");
    let actual = Request::build(Verb::Post, "/");
    assert_eq!(expected, actual);
    let request = actual.create();
    assert_eq!("", request.body());
    assert_eq!(0, request.headers().len());
    assert_eq!("/", request.target());
    assert_eq!(Verb::Post, *request.verb());
}

#[test]
fn request_header_success() {
    let expected = Some("text/plain");
    let request = Request::build(Verb::Post, "/")
        .header("Content-Type", "text/plain")
        .create();
    let actual = request.header("Content-Type");
    assert_eq!(expected, actual);
}

#[test]
fn request_header_missing() {
    let expected = None;
    let request = Request::build(Verb::Get, "/").create();
    let actual = request.header("Content-Type");
    assert_eq!(expected, actual);
}

#[test]
fn request_headers_success() {
    let expected = BTreeMap::from([
        (String::from("Content-Type"), String::from("text/plain")),
        (String::from("Content-Length"), String::from("0")),
    ]);
    let request = Request::build(Verb::Post, "/")
        .header("Content-Type", "text/plain")
        .header("Content-Length", "0")
        .create();
    let actual = request.headers();

    assert_eq!(sorted(expected), listed(actual));
}

#[test]
fn request_target_success() {
    let expected = "/";
    let request = Request::build(Verb::Get, "/").create();
    let actual = request.target();
    assert_eq!(expected, actual);
}

#[test]
fn request_verb_success() {
    let expected = Verb::Get;
    let request = Request::build(Verb::Get, "/").create();
    let actual = request.verb();
    assert_eq!(expected, *actual);
}

// Wire text of a request

#[test]
fn request_request_fmt_success() {
    let expected = "\
    POST / HTTP/1.1\n\
    Content-Length: 11\n\
    Content-Type: text/plain\n\
    \n\
    Hello World";
    let actual = Request::build(Verb::Post, "/")
        .header("Content-Type", "text/plain")
        .header("Content-Length", "11")
        .body("Hello World")
        .create()
        .to_text();
    assert_eq!(expected, actual);
}

#[test]
fn request_without_headers_and_body_renders_two_line_feeds() {
    let actual = Request::build(Verb::Get, "/").create().to_text();
    assert_eq!("GET / HTTP/1.1\n\n", actual);
}

#[test]
fn request_lines_end_in_a_bare_line_feed() {
    let actual = Request::build(Verb::Put, "/a b")
        .header("X", "1")
        .body("line\r\nline")
        .create()
        .to_text();
    assert_eq!("PUT /a b HTTP/1.1\nX: 1\n\nline\r\nline", actual);
}

#[test]
fn request_headers_render_by_name_not_by_insertion() {
    let actual = Request::build(Verb::Get, "/")
        .header("b", "2")
        .header("a", "1")
        .header("B", "3")
        .header("ab", "4")
        .create()
        .to_text();
    assert_eq!("GET / HTTP/1.1\nB: 3\na: 1\nab: 4\nb: 2\n\n", actual);
}

// Wire text of a verb

#[test]
fn request_verb_fmt_success() {
    let expected = "CONNECT";
    let actual = Verb::Connect.to_text();
    assert_eq!(expected, actual);
}

#[test]
fn every_verb_renders_as_its_upper_case_name() {
    let verbs = [
        (Verb::Connect, "CONNECT"),
        (Verb::Delete, "DELETE"),
        (Verb::Get, "GET"),
        (Verb::Head, "HEAD"),
        (Verb::Options, "OPTIONS"),
        (Verb::Patch, "PATCH"),
        (Verb::Post, "POST"),
        (Verb::Put, "PUT"),
        (Verb::Trace, "TRACE"),
    ];
    for (verb, expected) in verbs {
        assert_eq!(expected, verb.to_text());
        assert_eq!(format!("{verb:?}").to_uppercase(), verb.to_text());
    }
}

// Laws on concrete values

#[test]
fn header_written_last_wins() {
    let twice = Request::build(Verb::Get, "/")
        .header("Accept", "text/html")
        .header("Accept", "text/plain")
        .create();
    let once = Request::build(Verb::Get, "/")
        .header("Accept", "text/plain")
        .create();
    assert_eq!(once, twice);
    assert_eq!(Some("text/plain"), twice.header("Accept"));
    assert_eq!(1, twice.headers().len());
}

#[test]
fn header_names_are_compared_exactly() {
    let request = Request::build(Verb::Get, "/")
        .header("Content-Type", "text/plain")
        .header("content-type", "text/html")
        .create();
    assert_eq!(Some("text/plain"), request.header("Content-Type"));
    assert_eq!(Some("text/html"), request.header("content-type"));
    assert_eq!(None, request.header("CONTENT-TYPE"));
    assert_eq!(2, request.headers().len());
}

#[test]
fn json_counts_bytes_not_characters() {
    let text = "{\"name\": \"Zoë\", \"sign\": \"€\"}";
    assert_eq!(28, text.chars().count());
    assert_eq!(31, text.len());
    let actual = Request::build(Verb::Post, "/").json(text);
    let expected = Request::build(Verb::Post, "/")
        .body(text)
        .header("Content-Type", "application/json")
        .header("Content-Length", "31");
    assert_eq!(expected, actual);
    assert_eq!(Some("31"), actual.create().header("Content-Length"));
}

#[test]
fn json_of_an_empty_body_has_length_zero() {
    let request = Request::build(Verb::Post, "/").json("").create();
    assert_eq!("", request.body());
    assert_eq!(Some("0"), request.header("Content-Length"));
    assert_eq!(Some("application/json"), request.header("Content-Type"));
}

#[test]
fn json_replaces_body_and_both_headers() {
    let request = Request::build(Verb::Post, "/")
        .body("old")
        .header("Content-Type", "text/plain")
        .header("Content-Length", "3")
        .header("Accept", "*/*")
        .json("{\"a\": 1234567890}")
        .create();
    assert_eq!("{\"a\": 1234567890}", request.body());
    assert_eq!(Some("application/json"), request.header("Content-Type"));
    assert_eq!(Some("17"), request.header("Content-Length"));
    assert_eq!(Some("*/*"), request.header("Accept"));
    assert_eq!(
        "POST / HTTP/1.1\nAccept: */*\nContent-Length: 17\nContent-Type: application/json\n\n{\"a\": 1234567890}",
        request.to_text()
    );
}

#[test]
fn url_encoded_counts_bytes_not_characters() {
    let actual = Request::build(Verb::Post, "/").url_encoded("città=è");
    let expected = Request::build(Verb::Post, "/")
        .body("città=è")
        .header("Content-Type", "application/x-www-form-urlencoded")
        .header("Content-Length", "9");
    assert_eq!(expected, actual);
}

#[test]
fn body_and_header_calls_commute() {
    let one = Request::build(Verb::Post, "/").body("x").header("K", "v");
    let other = Request::build(Verb::Post, "/").header("K", "v").body("x");
    assert_eq!(one, other);
}

#[test]
fn a_cloned_builder_gives_independent_requests() {
    let shared = Request::build(Verb::Get, "/items").header("Accept", "*/*");
    let first = shared.clone().header("X-Page", "1").create();
    let second = shared.header("X-Page", "2").create();
    assert_eq!(Some("1"), first.header("X-Page"));
    assert_eq!(Some("2"), second.header("X-Page"));
    assert_eq!(first.header("Accept"), second.header("Accept"));
    assert_eq!(first.clone(), first);
}
