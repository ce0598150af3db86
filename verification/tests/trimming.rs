use argonaut::text::trim;

#[test]
fn trims_leading_and_trailing_space() {
    assert_eq!(trim("  hello \n"), "hello");
}

#[test]
fn keeps_interior_space() {
    assert_eq!(trim("\t a b  c \r\n"), "a b  c");
}

#[test]
fn empty_stays_empty() {
    assert_eq!(trim(""), "");
}

#[test]
fn all_space_becomes_empty() {
    assert_eq!(trim(" \t\r\n "), "");
}

#[test]
fn no_space_stays_as_is() {
    assert_eq!(trim("diff"), "diff");
}

#[test]
fn trims_unicode_space() {
    assert_eq!(trim("\u{00A0}\u{2003}x\u{3000}"), "x");
}
