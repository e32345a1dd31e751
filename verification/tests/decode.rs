use bucket_gateway::decode::{decode_path, strip_leading_slash};

#[test]
fn escapes_are_decoded() {
    assert_eq!(decode_path("foo%20bar"), "foo bar");
    assert_eq!(decode_path("foo%20bar%3f"), "foo bar?");
    assert_eq!(decode_path("foo%20bar%3F"), "foo bar?");
    assert_eq!(decode_path("%41%42%43"), "ABC");
}

#[test]
fn multibyte_escapes_are_read_as_utf8() {
    assert_eq!(decode_path("caf%C3%A9"), "caf\u{e9}");
    assert_eq!(decode_path("%F0%9F%92%96"), "\u{1f496}");
    assert_eq!(decode_path("caf\u{e9}"), "caf\u{e9}");
}

#[test]
fn percent_without_two_hex_digits_stands_for_itself() {
    assert_eq!(decode_path("100%"), "100%");
    assert_eq!(decode_path("%2"), "%2");
    assert_eq!(decode_path("%zz"), "%zz");
    assert_eq!(decode_path("%2x"), "%2x");
    assert_eq!(decode_path("%%41"), "%A");
    assert_eq!(decode_path("%+1"), "%+1");
}

#[test]
fn escaped_percent_is_not_decoded_again() {
    assert_eq!(decode_path("%2541"), "%41");
}

#[test]
fn undecodable_bytes_give_empty_path() {
    assert_eq!(decode_path("%FF"), "");
    assert_eq!(decode_path("/abc%80"), "");
    assert_eq!(decode_path("%ED%A0%80"), "");
    assert_eq!(decode_path("%C0%AF"), "");
}

#[test]
fn plain_path_decodes_to_itself() {
    for path in ["", "about", "a/b/c.js", "style.css", "caf\u{e9}/\u{1f496}.png"] {
        assert_eq!(decode_path(path), path);
    }
}

#[test]
fn leading_slash_is_dropped_once() {
    assert_eq!(strip_leading_slash(""), "");
    assert_eq!(strip_leading_slash("/"), "");
    assert_eq!(strip_leading_slash("/a"), "a");
    assert_eq!(strip_leading_slash("//a"), "/a");
    assert_eq!(strip_leading_slash("a/"), "a/");
    assert_eq!(strip_leading_slash("\u{e9}/"), "\u{e9}/");
}

#[test]
fn escaped_leading_slash_is_kept() {
    assert_eq!(decode_path("%2Fa"), "/a");
    assert_eq!(decode_path("/%2Fa"), "/a");
}
