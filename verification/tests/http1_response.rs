use habanero::headers::Headers;
use habanero::http1::response::Builder;
use habanero::http1::{Code, Response};
use std::collections::BTreeMap;

fn listed_headers(headers: &Headers) -> Vec<(String, String)> {
    let mut out = Vec::new();
    let mut i = 0;
    while let Some((key, value)) = headers.entry(i) {
        out.push((key.to_string(), value.to_string()));
        i += 1;
    }
    assert_eq!(i, headers.len());
    out
}

fn sorted_pairs(map: BTreeMap<String, String>) -> Vec<(String, String)> {
    map.into_iter().collect()
}

// Builder

#[test]
fn response_builder_new_success() {
    let expected = Response::new(Code::OK, Headers::new(), String::new());
    let actual = Builder::new(Code::OK);
    assert_eq!(expected, actual.clone().create());
    let response = actual.create();
    assert_eq!("", response.body());
    assert_eq!(Code::OK, *response.code());
    assert_eq!(0, response.headers().len());
}

#[test]
fn response_builder_body_success() {
    let expected = "Hello World";
    let actual = Builder::new(Code::OK).body("Hello World").create();
    assert_eq!(expected, actual.body())
}

#[test]
fn response_builder_body_overwrite() {
    let expected = "Hello World";
    let actual = Builder::new(Code::OK)
        .body("Overwritten")
        .body("Hello World")
        .create();
    assert_eq!(expected, actual.body());
}

#[test]
fn response_builder_create_success() {
    let expected = Response::new(Code::OK, Headers::new(), String::new());
    let actual = Builder::new(Code::OK).create();
    assert_eq!(expected, actual);
}

#[test]
fn response_builder_header_success() {
    let expected = BTreeMap::from([(String::from("Content-Type"), String::from("text/plain"))]);
    let actual = Builder::new(Code::OK)
        .header("Content-Type", "text/plain")
        .create();
    assert_eq!(sorted_pairs(expected), listed_headers(actual.headers()));
}

#[test]
fn response_builder_header_overwrite() {
    let expected = BTreeMap::from([(String::from("Content-Type"), String::from("text/plain"))]);
    let actual = Builder::new(Code::OK)
        .header("Content-Type", "application/json")
        .header("Content-Type", "text/plain")
        .create();
    assert_eq!(sorted_pairs(expected), listed_headers(actual.headers()));
}

#[test]
fn builder_html_success() {
    let expected = Builder::new(Code::OK)
        .header("Content-Type", "text/html")
        .header("Content-Length", "13")
        .body("<html></html>");
    let actual = Builder::new(Code::OK).html("<html></html>");
    assert_eq!(expected, actual);
}

#[test]
fn response_builder_json_success() {
    let expected = Builder::new(Code::OK)
        .header("Content-Type", "application/json")
        .header("Content-Length", "3")
        .body("{ }");
    let actual = Builder::new(Code::OK).json("{ }");
    assert_eq!(expected, actual);
}

#[test]
fn response_builder_url_encoded_success() {
    let expected = Builder::new(Code::OK)
        .header("Content-Type", "application/x-www-form-urlencoded")
        .header("Content-Length", "9")
        .body("key=value");
    let actual = Builder::new(Code::OK).url_encoded("key=value");
    assert_eq!(expected, actual);
}

// Response

#[test]
fn response_response_new_success() {
    let expected = Response::build(Code::OK).create();
    let actual = Response::new(Code::OK, Headers::new(), String::new());
    assert_eq!(expected, actual);
    assert_eq!("", actual.body());
    assert_eq!(Code::OK, *actual.code());
    assert_eq!(0, actual.headers().len());
}

#[test]
fn response_body_success() {
    let expected = "Hello World";
    let response = Response::build(Code::OK).body("Hello World").create();
    let actual = response.body();
    assert_eq!(expected, actual);
}

#[test]
fn response_response_build_success() {
    let expected = Builder::new(Code::OK);
    let actual = Response::build(Code::OK);
    assert_eq!(expected, actual);
    let response = actual.create();
    assert_eq!("", response.body());
    assert_eq!(Code::OK, *response.code());
    assert_eq!(0, response.headers().len());
}

#[test]
fn response_code_success() {
    let expected = Code::OK;
    let response = Response::build(Code::OK).create();
    let actual = response.code();
    assert_eq!(expected, *actual);
}

#[test]
fn response_header_success() {
    let expected = Some("text/plain");
    let response = Response::build(Code::OK)
        .header("Content-Type", "text/plain")
        .create();
    let actual = response.header("Content-Type");
    assert_eq!(expected, actual);
}

#[test]
fn response_header_missing() {
    let expected = None;
    let response = Response::build(Code::OK)
        .header("Content-Type", "text/plain")
        .create();
    let actual = response.header("Content-Length");
    assert_eq!(expected, actual);
}

#[test]
fn response_headers_success() {
    let expected = BTreeMap::from([(String::from("Content-Type"), String::from("text/plain"))]);
    let response = Response::build(Code::OK)
        .header("Content-Type", "text/plain")
        .create();
    let actual = response.headers();
    assert_eq!(sorted_pairs(expected), listed_headers(actual));
}

// Wire text of a response

#[test]
fn response_request_fmt_success() {
    let expected = "\
    HTTP/1.1 200 OK\n\
    Content-Length: 11\n\
    Content-Type: text/plain\n\n\
    Hello World";

    let actual = Response::build(Code::OK)
        .header("Content-Type", "text/plain")
        .header("Content-Length", "11")
        .body("Hello World")
        .create()
        .to_text();

    assert_eq!(expected, actual);
}

#[test]
fn response_without_headers_and_body_renders_the_status_line() {
    assert_eq!("HTTP/1.1 200 OK\n\n", Response::build(Code::OK).create().to_text());
    assert_eq!(
        "HTTP/1.1 418 I'm a teapot\n\n",
        Response::build(Code::ImATeapot).create().to_text()
    );
}

#[test]
fn response_html_renders_with_its_headers() {
    let actual = Response::build(Code::NotFound)
        .html("<p>né</p>")
        .create()
        .to_text();
    assert_eq!(
        "HTTP/1.1 404 Not Found\nContent-Length: 10\nContent-Type: text/html\n\n<p>né</p>",
        actual
    );
}

// Wire text of a status code

#[test]
fn version_fmt_default() {
    let expected = "404 Not Found";
    let actual = Code::NotFound.to_text();
    assert_eq!(expected, actual);
}

#[test]
fn version_fmt_ok() {
    let expected = "200 OK";
    let actual = Code::OK.to_text();
    assert_eq!(expected, actual);
}

#[test]
fn version_fmt_non_authoritative_information() {
    let expected = "203 Non-Authoritative Information";
    let actual = Code::NonAuthoritativeInformation.to_text();
    assert_eq!(expected, actual);
}

#[test]
fn version_fmt_multi_status() {
    let expected = "207 Multi-Status";
    let actual = Code::MultiStatus.to_text();
    assert_eq!(expected, actual);
}

#[test]
fn version_fmt_im_a_teapot() {
    let expected = "418 I'm a teapot";
    let actual = Code::ImATeapot.to_text();
    assert_eq!(expected, actual);
}

#[test]
fn every_code_has_its_number_and_phrase() {
    let table = [
        (Code::Continue, 100, "Continue"),
        (Code::SwitchingProtocols, 101, "Switching Protocols"),
        (Code::Processing, 102, "Processing"),
        (Code::EarlyHints, 103, "Early Hints"),
        (Code::OK, 200, "OK"),
        (Code::Created, 201, "Created"),
        (Code::Accepted, 202, "Accepted"),
        (Code::NonAuthoritativeInformation, 203, "Non-Authoritative Information"),
        (Code::NoContent, 204, "No Content"),
        (Code::ResetContent, 205, "Reset Content"),
        (Code::PartialContent, 206, "Partial Content"),
        (Code::MultiStatus, 207, "Multi-Status"),
        (Code::AlreadyReported, 208, "Already Reported"),
        (Code::IMUsed, 226, "IM Used"),
        (Code::MultipleChoices, 300, "Multiple Choices"),
        (Code::MovedPermanently, 301, "Moved Permanently"),
        (Code::Found, 302, "Found"),
        (Code::SeeOther, 303, "See Other"),
        (Code::NotModified, 304, "Not Modified"),
        (Code::TemporaryRedirect, 307, "Temporary Redirect"),
        (Code::PermanentRedirect, 308, "Permanent Redirect"),
        (Code::BadRequest, 400, "Bad Request"),
        (Code::Unauthorized, 401, "Unauthorized"),
        (Code::PaymentRequired, 402, "Payment Required"),
        (Code::Forbidden, 403, "Forbidden"),
        (Code::NotFound, 404, "Not Found"),
        (Code::MethodNotAllowed, 405, "Method Not Allowed"),
        (Code::NotAcceptable, 406, "Not Acceptable"),
        (Code::ProxyAuthenticationRequired, 407, "Proxy Authentication Required"),
        (Code::RequestTimeout, 408, "Request Timeout"),
        (Code::Conflict, 409, "Conflict"),
        (Code::Gone, 410, "Gone"),
        (Code::LengthRequired, 411, "Length Required"),
        (Code::PreconditionFailed, 412, "Precondition Failed"),
        (Code::ContentTooLarge, 413, "Content Too Large"),
        (Code::UriTooLong, 414, "URI Too Long"),
        (Code::UnsupportedMediaType, 415, "Unsupported Media Type"),
        (Code::RangeNotSatisfiable, 416, "Range Not Satisfiable"),
        (Code::ExpectationFailed, 417, "Expectation Failed"),
        (Code::ImATeapot, 418, "I'm a teapot"),
        (Code::MisdirectedRequest, 421, "Misdirected Request"),
        (Code::UnprocessableContent, 422, "Unprocessable Content"),
        (Code::Locked, 423, "Locked"),
        (Code::FailedDependency, 424, "Failed Dependency"),
        (Code::TooEarly, 425, "Too Early"),
        (Code::UpgradeRequired, 426, "Upgrade Required"),
        (Code::PreconditionRequired, 428, "Precondition Required"),
        (Code::TooManyRequests, 429, "Too Many Requests"),
        (Code::RequestHeaderFieldsTooLarge, 431, "Request Header Fields Too Large"),
        (Code::UnavailableForLegalReasons, 451, "Unavailable For Legal Reasons"),
        (Code::InternalServerError, 500, "Internal Server Error"),
        (Code::NotImplemented, 501, "Not Implemented"),
        (Code::BadGateway, 502, "Bad Gateway"),
        (Code::ServiceUnavailable, 503, "Service Unavailable"),
        (Code::GatewayTimeout, 504, "Gateway Timeout"),
        (Code::HTTPVersionNotSupported, 505, "HTTP Version Not Supported"),
        (Code::VariantAlsoNegotiates, 506, "Variant Also Negotiates"),
        (Code::InsufficientStorage, 507, "Insufficient Storage"),
        (Code::LoopDetected, 508, "Loop Detected"),
        (Code::NotExtended, 510, "Not Extended"),
        (Code::NetworkAuthenticationRequired, 511, "Network Authentication Required"),
    ];
    assert_eq!(61, table.len());
    let mut last = 0;
    for (code, number, phrase) in table {
        assert_eq!(number, code.numeric());
        assert_eq!(phrase, code.reason());
        assert_eq!(format!("{number} {phrase}"), code.to_text());
        assert!((100..=511).contains(&code.numeric()));
        assert!(last < number);
        last = number;
    }
}

// Laws on concrete values

#[test]
fn response_header_written_last_wins() {
    let twice = Response::build(Code::OK)
        .header("Server", "a")
        .header("Server", "b")
        .create();
    let once = Response::build(Code::OK).header("Server", "b").create();
    assert_eq!(once, twice);
    assert_eq!(Some("b"), twice.header("Server"));
    assert_eq!(1, twice.headers().len());
}

#[test]
fn html_counts_bytes_not_characters() {
    let text = "<p>日本語</p>";
    assert_eq!(10, text.chars().count());
    let actual = Response::build(Code::OK).html(text);
    let expected = Response::build(Code::OK)
        .body(text)
        .header("Content-Type", "text/html")
        .header("Content-Length", "16");
    assert_eq!(expected, actual);
}

#[test]
fn response_json_counts_bytes_not_characters() {
    let actual = Response::build(Code::Created).json("\"ß\"");
    let expected = Response::build(Code::Created)
        .body("\"ß\"")
        .header("Content-Type", "application/json")
        .header("Content-Length", "4");
    assert_eq!(expected, actual);
}

#[test]
fn response_url_encoded_counts_bytes_not_characters() {
    let actual = Response::build(Code::Accepted).url_encoded("k=ü");
    let expected = Response::build(Code::Accepted)
        .body("k=ü")
        .header("Content-Type", "application/x-www-form-urlencoded")
        .header("Content-Length", "4");
    assert_eq!(expected, actual);
}

#[test]
fn the_last_body_shortcut_wins() {
    let response = Response::build(Code::OK)
        .json("{ }")
        .html("<html></html>")
        .create();
    assert_eq!("<html></html>", response.body());
    assert_eq!(Some("text/html"), response.header("Content-Type"));
    assert_eq!(Some("13"), response.header("Content-Length"));
    assert_eq!(2, response.headers().len());
}

#[test]
fn a_cloned_response_builder_gives_independent_responses() {
    let shared = Response::build(Code::OK).header("Server", "habanero");
    let first = shared.clone().body("one").create();
    let second = shared.body("two").create();
    assert_eq!("one", first.body());
    assert_eq!("two", second.body());
    assert_eq!(first.header("Server"), second.header("Server"));
    assert_eq!(first.clone(), first);
}
