use std::str::FromStr;

use mco_http::error::Error;
use mco_http::text::same_text;
use mco_http::version::HttpVersion;

const ALL: [HttpVersion; 4] =
    [HttpVersion::Http09, HttpVersion::Http10, HttpVersion::Http11, HttpVersion::Http20];

#[test]
fn versions_have_their_wire_names() {
    assert_eq!(HttpVersion::Http09.as_str(), "HTTP/0.9");
    assert_eq!(HttpVersion::Http10.as_str(), "HTTP/1.0");
    assert_eq!(HttpVersion::Http11.as_str(), "HTTP/1.1");
    assert_eq!(HttpVersion::Http20.as_str(), "HTTP/2.0");
    let s: &str = HttpVersion::Http11.as_ref();
    assert_eq!(s, "HTTP/1.1");
    assert_eq!(HttpVersion::Http20.to_string(), String::from("HTTP/2.0"));
}

#[test]
fn names_are_read_back() {
    assert_eq!(HttpVersion::parse("HTTP/0.9"), Ok(HttpVersion::Http09));
    assert_eq!(HttpVersion::parse("HTTP/1.0"), Ok(HttpVersion::Http10));
    assert_eq!(HttpVersion::parse("HTTP/1.1"), Ok(HttpVersion::Http11));
    assert_eq!(HttpVersion::parse("HTTP/2.0"), Ok(HttpVersion::Http20));
    assert_eq!(HttpVersion::from_str("HTTP/1.1"), Ok(HttpVersion::Http11));
    assert_eq!("HTTP/2.0".parse::<HttpVersion>(), Ok(HttpVersion::Http20));
    for v in ALL {
        assert_eq!(HttpVersion::parse(v.as_str()), Ok(v));
        assert_eq!(HttpVersion::from_str(&v.to_string()), Ok(v));
    }
}

#[test]
fn other_text_is_a_version_error() {
    for s in ["", "HTTP/3.0", "HTTP/1.2", "http/1.1", "HTTP/1.1 ", " HTTP/1.1", "HTTP/1", "HTTP/2", "1.1", "HTTP/1.10", "HTTP\u{2215}1.1"] {
        assert_eq!(HttpVersion::parse(s), Err(Error::Version));
        assert_eq!(HttpVersion::from_str(s), Err(Error::Version));
    }
}

#[test]
fn versions_are_ordered_by_age() {
    assert!(HttpVersion::Http09 < HttpVersion::Http10);
    assert!(HttpVersion::Http10 < HttpVersion::Http11);
    assert!(HttpVersion::Http11 < HttpVersion::Http20);
    for (i, a) in ALL.iter().enumerate() {
        for (j, b) in ALL.iter().enumerate() {
            assert_eq!(a == b, i == j);
            assert_eq!(a.as_str() == b.as_str(), i == j);
        }
    }
}

#[test]
fn same_text_compares_contents() {
    assert!(same_text("", ""));
    assert!(same_text("abc", "abc"));
    assert!(same_text("caf\u{e9}", "caf\u{e9}"));
    assert!(!same_text("abc", "abd"));
    assert!(!same_text("abc", "ab"));
    assert!(!same_text("", "a"));
    assert!(!same_text("caf\u{e9}", "cafe"));
    assert!(!same_text("e\u{301}", "\u{e9}"));
    let owned = String::from("HTTP/1.1");
    assert!(same_text(&owned, "HTTP/1.1"));
}
