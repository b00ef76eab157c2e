use telos::names::{matches_name, str_ieq};

#[test]
fn plain_names_match_ignoring_ascii_case() {
    assert!(matches_name("example.com", "example.com"));
    assert!(matches_name("example.com", "EXAMPLE.COM"));
    assert!(matches_name("ExAmPlE.CoM", "eXaMpLe.cOm"));
    assert!(!matches_name("example.com", "example.org"));
    assert!(!matches_name("example.com", "www.example.com"));
    assert!(!matches_name("www.example.com", "example.com"));
}

#[test]
fn wildcard_covers_exactly_one_label() {
    assert!(matches_name("*.example.com", "www.example.com"));
    assert!(matches_name("*.example.com", "WWW.EXAMPLE.COM"));
    assert!(matches_name("*.EXAMPLE.com", "www.example.COM"));
    // The wildcard does not cover the bare domain,
    assert!(!matches_name("*.example.com", "example.com"));
    // nor two labels,
    assert!(!matches_name("*.example.com", "a.b.example.com"));
    // nor an empty first label.
    assert!(!matches_name("*.example.com", ".example.com"));
    // A name without any dot cannot match a wildcard.
    assert!(!matches_name("*.example.com", "localhost"));
}

#[test]
fn wildcard_must_be_whole_first_label() {
    // A `*` that is not followed by a dot is not a wildcard pattern and
    // only matches itself.
    assert!(!matches_name("*example.com", "www.example.com"));
    assert!(matches_name("*example.com", "*example.com"));
}

#[test]
fn case_insensitive_comparison_is_ascii_only() {
    assert!(str_ieq("abc", "ABC"));
    assert!(str_ieq("", ""));
    assert!(!str_ieq("abc", "abd"));
    assert!(!str_ieq("abc", "ab"));
    // Case folding applies to ASCII letters only.
    assert!(!str_ieq("\u{00c4}", "\u{00e4}"));
}
