use photo_api::cors::{join, CorsMiddleware};
use photo_api::text::encode_url_component;
use photo_api::uploads::{multipart_boundary, object_url};

#[test]
fn url_component_keeps_letters_and_digits() {
    assert_eq!(encode_url_component(String::from("abcXYZ019")), "abcXYZ019");
}

#[test]
fn url_component_encodes_reserved_characters() {
    assert_eq!(encode_url_component(String::from("a b/c?d=e")), "a%20b%2Fc%3Fd%3De");
    assert_eq!(encode_url_component(String::from("photo.jpg")), "photo%2Ejpg");
    assert_eq!(encode_url_component(String::from("_-~")), "%5F%2D%7E");
}

#[test]
fn url_component_encodes_utf8_bytes() {
    assert_eq!(encode_url_component(String::from("é")), "%C3%A9");
    assert_eq!(encode_url_component(String::from("€")), "%E2%82%AC");
    assert_eq!(encode_url_component(String::from("😀")), "%F0%9F%98%80");
}

#[test]
fn url_component_writes_small_bytes_without_leading_zero() {
    assert_eq!(encode_url_component(String::from("\n\t")), "%A%9");
}

#[test]
fn url_component_of_empty_text_is_empty() {
    assert_eq!(encode_url_component(String::new()), "");
}

#[test]
fn boundary_is_read_after_its_marker() {
    let b = multipart_boundary("multipart/form-data; boundary=----abc123");
    assert_eq!(b, Some(String::from("----abc123")));
}

#[test]
fn boundary_uses_first_marker() {
    let b = multipart_boundary("x; boundary=one; boundary=two");
    assert_eq!(b, Some(String::from("one; boundary=two")));
}

#[test]
fn boundary_missing_gives_none() {
    assert_eq!(multipart_boundary("application/json"), None);
    assert_eq!(multipart_boundary(""), None);
    assert_eq!(multipart_boundary("boundary"), None);
}

#[test]
fn boundary_may_be_empty() {
    assert_eq!(multipart_boundary("boundary="), Some(String::new()));
}

#[test]
fn object_url_drops_spaces_and_encodes_key() {
    let u = object_url("my-bucket", "eu-west-1", "my photo.jpg");
    assert_eq!(u, "https://my-bucket.s3.eu-west-1.amazonaws.com/myphoto%2Ejpg");
}

#[test]
fn join_puts_separator_between_items() {
    let items = vec![String::from("a"), String::from("b"), String::from("c")];
    assert_eq!(join(&items, ", "), "a, b, c");
    assert_eq!(join(&vec![String::from("x")], ", "), "x");
    assert_eq!(join(&Vec::new(), ", "), "");
}

#[test]
fn cors_default_headers_echo_request_origin() {
    let cors = CorsMiddleware::default();
    assert_eq!(cors.max_age, 86400);
    let headers = cors.response_headers(Some(String::from("https://site.example")));
    let expected = vec![
        ("access-control-allow-credentials", "true"),
        ("access-control-allow-headers", "authorization, content-type"),
        ("access-control-allow-origin", "https://site.example"),
        ("access-control-allow-methods", "DELETE, GET, HEAD, OPTIONS, PATCH, POST, PUT"),
        ("access-control-max-age", "86400"),
    ];
    assert_eq!(headers.len(), expected.len());
    for (h, (n, v)) in headers.iter().zip(expected.iter()) {
        assert_eq!(h.0, *n);
        assert_eq!(h.1, *v);
    }
}

#[test]
fn cors_origin_falls_back_to_any() {
    let cors = CorsMiddleware::default();
    let headers = cors.response_headers(None);
    assert_eq!(headers[2].1, "*");
}

#[test]
fn cors_configured_origin_wins() {
    let cors = CorsMiddleware::new(vec![String::from("GET")], Some(String::from("https://a.b")), 5);
    let headers = cors.response_headers(Some(String::from("https://other")));
    assert_eq!(headers[2].1, "https://a.b");
    assert_eq!(headers[3].1, "GET");
    assert_eq!(headers[4].1, "5");
}
