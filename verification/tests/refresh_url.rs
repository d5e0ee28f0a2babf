use gcal_widget::decimal::{parse_decimal, to_decimal};
use gcal_widget::refresh_url::{
    checked_refresh_url, pairs_with_token, refresh_token, refresh_url, retained_pairs,
    token_of_pairs, REFRESH_PARAMETER,
};
use gcal_widget::url_size::is_supported;
use url::Url;

fn parsed(text: &str) -> Url {
    Url::parse(text).expect("test URL should parse")
}

fn pair(name: &str, value: &str) -> (String, String) {
    (name.to_owned(), value.to_owned())
}

#[test]
fn refresh_url_preserves_path_fragment_and_existing_query() {
    let base = Url::parse("http://example.test/calendar/week?theme=dark&room=a%20b#today")
        .expect("test URL should parse");
    let url = refresh_url(&base, 42);

    assert_eq!(url.path(), "/calendar/week");
    assert_eq!(url.fragment(), Some("today"));
    assert_eq!(
        url.query_pairs().find(|(key, _)| key == "theme").unwrap().1,
        "dark"
    );
    assert_eq!(
        url.query_pairs().find(|(key, _)| key == "room").unwrap().1,
        "a b"
    );
    assert_eq!(refresh_token(&url), Some(42));
}

#[test]
fn refresh_url_replaces_the_reserved_parameter() {
    let base = Url::parse("http://example.test/?__gcal_refresh=old&keep=yes")
        .expect("test URL should parse");
    let url = refresh_url(&base, 9);

    assert_eq!(
        url.query_pairs()
            .filter(|(key, _)| key == REFRESH_PARAMETER)
            .count(),
        1
    );
    assert_eq!(refresh_token(&url), Some(9));
    assert!(url
        .query_pairs()
        .any(|(key, value)| key == "keep" && value == "yes"));
}

#[test]
fn refreshed_text_is_the_form_encoded_query() {
    let cases = [
        (
            "http://example.test/calendar/week?theme=dark&room=a%20b#today",
            "http://example.test/calendar/week?theme=dark&room=a+b&__gcal_refresh=7#today",
        ),
        ("http://example.test", "http://example.test/?__gcal_refresh=7"),
        ("http://example.test/?#x", "http://example.test/?__gcal_refresh=7#x"),
        (
            "http://example.test/?q=%C3%A9%26x&&empty&=v&a*-._Z=~%2B",
            "http://example.test/?q=%C3%A9%26x&empty=&=v&a*-._Z=%7E%2B&__gcal_refresh=7",
        ),
        (
            "http://example.test/?bad=%FF",
            "http://example.test/?bad=%EF%BF%BD&__gcal_refresh=7",
        ),
        ("mailto:someone?subject=hi", "mailto:someone?subject=hi&__gcal_refresh=7"),
    ];
    for (base, expected) in cases {
        assert_eq!(refresh_url(&parsed(base), 7).as_str(), expected);
        assert_eq!(
            checked_refresh_url(&parsed(base), 7).map(String::from),
            Some(expected.to_owned())
        );
    }
}

#[test]
fn opaque_path_loses_trailing_spaces_only_without_fragment() {
    let base = parsed("data:x  ?q=1");
    assert_eq!(base.path(), "x  ");
    assert_eq!(refresh_url(&base, 3).as_str(), "data:x?q=1&__gcal_refresh=3");
    let base = parsed("data:x  ?q=1#f");
    assert_eq!(refresh_url(&base, 3).as_str(), "data:x  ?q=1&__gcal_refresh=3#f");
}

#[test]
fn later_token_replaces_earlier_one() {
    let base = parsed("http://example.test/?a=1&__gcal_refresh=x&b=2#f");
    let once = refresh_url(&base, 1);
    let twice = refresh_url(&once, u64::MAX);
    assert_eq!(twice, refresh_url(&base, u64::MAX));
    assert_eq!(refresh_token(&once), Some(1));
    assert_eq!(refresh_token(&twice), Some(u64::MAX));
}

#[test]
fn token_is_read_from_the_first_reserved_parameter() {
    assert_eq!(refresh_token(&parsed("http://example.test/")), None);
    assert_eq!(refresh_token(&parsed("http://example.test/?token=1")), None);
    assert_eq!(refresh_token(&parsed("http://example.test/?__gcal_refresh=x")), None);
    assert_eq!(refresh_token(&parsed("http://example.test/?__gcal_refresh")), None);
    assert_eq!(
        refresh_token(&parsed("http://example.test/?__gcal_refresh=5&__gcal_refresh=6")),
        Some(5)
    );
    assert_eq!(
        refresh_token(&parsed("http://example.test/?__gcal_refresh=x&__gcal_refresh=6")),
        None
    );
    assert_eq!(
        refresh_token(&parsed("http://example.test/?__gcal%5Frefresh=%31%32")),
        Some(12)
    );
}

#[test]
fn pairs_are_filtered_and_extended_in_order() {
    let pairs = vec![
        pair("a", "1"),
        pair(REFRESH_PARAMETER, "3"),
        pair("b", "2"),
        pair(REFRESH_PARAMETER, "4"),
    ];
    assert_eq!(retained_pairs(&pairs), vec![pair("a", "1"), pair("b", "2")]);
    assert_eq!(
        pairs_with_token(&pairs, 10),
        vec![pair("a", "1"), pair("b", "2"), pair(REFRESH_PARAMETER, "10")]
    );
    assert_eq!(token_of_pairs(&pairs), Some(3));
    assert_eq!(token_of_pairs(&pairs_with_token(&pairs, 10)), Some(10));
    assert_eq!(token_of_pairs(&retained_pairs(&pairs)), None);
}

#[test]
fn ordinary_urls_are_supported() {
    assert!(is_supported(&parsed("http://example.test/?a=1#f")));
}

#[test]
fn decimal_text_agrees_with_the_standard_library() {
    for n in [0, 1, 9, 10, 42, 99, 100, 1_234_567_890, u64::MAX - 1, u64::MAX] {
        assert_eq!(to_decimal(n), n.to_string());
        assert_eq!(parse_decimal(&n.to_string()), Some(n));
    }
    for text in [
        "", "+", "-", "-0", "-1", "+7", "++7", "007", " 7", "7 ", "7_0", "0x7", "\u{661}", "7+",
        "18446744073709551615", "18446744073709551616", "99999999999999999999", "+0",
    ] {
        assert_eq!(parse_decimal(text), text.parse().ok());
    }
}
