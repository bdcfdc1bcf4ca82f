use sportsday_scoreboard_v2::middleware::headers::{
    cache_control_value, html_content_type_value, same_bytes, DefaultHtmlContentType,
    HeaderChanges,
};

#[test]
fn a_response_without_content_type_becomes_html() {
    let middleware = DefaultHtmlContentType.new_transform(());
    assert_eq!(
        middleware.changes(None),
        HeaderChanges { set_html_content_type: true, set_cache_control: false }
    );
}

#[test]
fn an_html_response_is_left_alone() {
    let middleware = DefaultHtmlContentType.new_transform(());
    assert_eq!(
        middleware.changes(Some(b"text/html; charset=utf-8")),
        HeaderChanges { set_html_content_type: false, set_cache_control: false }
    );
}

#[test]
fn any_other_response_may_be_cached() {
    let middleware = DefaultHtmlContentType.new_transform(());
    let cached = HeaderChanges { set_html_content_type: false, set_cache_control: true };
    assert_eq!(middleware.changes(Some(b"application/json")), cached);
    assert_eq!(middleware.changes(Some(b"text/html")), cached);
    assert_eq!(middleware.changes(Some(b"text/html; charset=UTF-8")), cached);
    assert_eq!(middleware.changes(Some(b"")), cached);
    assert_eq!(middleware.changes(Some(&[0xff, 0xfe])), cached);
}

#[test]
fn header_values_are_as_sent() {
    assert_eq!(html_content_type_value(), "text/html; charset=utf-8");
    assert_eq!(cache_control_value(), "max-age=600");
}

#[test]
fn the_middleware_wraps_its_service() {
    let middleware = DefaultHtmlContentType.new_transform(41u8);
    assert_eq!(*middleware.service, 41);
}

#[test]
fn same_bytes_compares_byte_by_byte() {
    assert!(same_bytes(b"", b""));
    assert!(same_bytes(b"abc", b"abc"));
    assert!(!same_bytes(b"abc", b"abd"));
    assert!(!same_bytes(b"abc", b"ab"));
    assert!(!same_bytes(b"", b"a"));
}
