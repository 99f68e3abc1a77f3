use habanero::response::{Builder, Response, Version};

// Builder

#[test]
fn versioned_response_builder_new_success() {
    let expected = Response::build(Version::Http1_1);
    let actual = Builder::new(Version::Http1_1);
    assert_eq!(expected, actual);
    assert_eq!(Version::Http1_1, *actual.create().version());
}

#[test]
fn versioned_response_builder_create_success() {
    let expected = Response::new(Version::Http1_1);

    let actual = Builder::new(Version::Http1_1).create();
    assert_eq!(expected, actual);
}

// Response

#[test]
fn response_new_success() {
    let expected = Response::new(Version::Http1_1);
    let actual = Response::build(Version::Http1_1).create();
    assert_eq!(expected, actual);
    assert_eq!(Version::Http1_1, *actual.version());
}

#[test]
fn response_build_success() {
    let expected = Builder::new(Version::Http1_1);
    let actual = Response::build(Version::Http1_1);
    assert_eq!(expected, actual);
}
