use http_file_server::path::{make_path, make_path_with_separator};
use http_file_server::request::{parse_request_line, request_path, RequestError};

#[test]
fn test_make_path() {
    assert_eq!(
        make_path_with_separator(".", "sample_file/aaa/bbb.txt", '\\'),
        ".\\sample_file\\aaa\\bbb.txt".to_string()
    );

    assert_eq!(
        make_path_with_separator("C:www\\html\\", "sample_file/aaa/bbb.txt", '\\'),
        "C:www\\html\\sample_file\\aaa\\bbb.txt".to_string()
    );

    // A target ending in a separator is not completed with an index file.
    assert_eq!(
        make_path_with_separator("C:www\\html\\", "sample_file/aaa/", '\\'),
        "C:www\\html\\sample_file\\aaa\\".to_string()
    );
}

#[test]
fn relative_target_gets_one_separator() {
    assert_eq!(make_path_with_separator("/srv/www//", "a/b.txt", '/'), "/srv/www/a/b.txt");
    assert_eq!(make_path_with_separator("base", "x", '/'), "base/x");
}

#[test]
fn rooted_target_gets_no_extra_separator() {
    assert_eq!(make_path_with_separator("/srv/www/", "/a/b.txt", '/'), "/srv/www/a/b.txt");
    assert_eq!(make_path_with_separator("base", "//x", '/'), "base//x");
}

#[test]
fn empty_target_is_root() {
    assert_eq!(make_path_with_separator("/srv/www///", "", '/'), "/srv/www/");
    assert_eq!(make_path_with_separator("C:www\\", "", '\\'), "C:www\\");
}

#[test]
fn dot_segments_are_kept() {
    assert_eq!(make_path_with_separator("base", "/../etc", '/'), "base/../etc");
}

#[test]
fn host_separator_path() {
    let p = make_path("/srv/www/", "/images/a.png");
    assert!(p == "/srv/www/images/a.png" || p == "/srv/www\\images\\a.png");
}

#[test]
fn parses_get_request_line() {
    let r = parse_request_line("GET /index.html HTTP/1.1\r\n").unwrap();
    assert_eq!(r.method, "GET");
    assert_eq!(r.target, "/index.html");
    let r = parse_request_line("  GET\t/a  ").unwrap();
    assert_eq!(r.target, "/a");
}

#[test]
fn refuses_short_line() {
    assert_eq!(parse_request_line("GET").err(), Some(RequestError::Malformed));
    assert_eq!(parse_request_line("").err(), Some(RequestError::Malformed));
    assert_eq!(parse_request_line("  \r\n").err(), Some(RequestError::Malformed));
}

#[test]
fn refuses_other_methods() {
    assert_eq!(
        parse_request_line("POST /x HTTP/1.1").err(),
        Some(RequestError::UnsupportedMethod)
    );
    assert_eq!(parse_request_line("get /x").err(), Some(RequestError::UnsupportedMethod));
}

#[test]
fn request_path_resolves_target() {
    let p = request_path("GET /images/a.png HTTP/1.1\r\n", "/srv/www").unwrap();
    assert!(p == "/srv/www/images/a.png" || p == "/srv/www\\images\\a.png");
    assert_eq!(request_path("HEAD / HTTP/1.1", "/srv"), Err(RequestError::UnsupportedMethod));
}
