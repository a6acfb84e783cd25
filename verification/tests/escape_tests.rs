use ezsyslog::escape::escape;

#[test]
fn escapes_delimiter() {
    assert_eq!(escape("Hello 'World'"), "Hello \\'World\\'");
}

#[test]
fn escapes_backslash() {
    assert_eq!(escape("a\\b"), "a\\\\b");
}

#[test]
fn safe_input_unchanged() {
    assert_eq!(escape("plain text 123 <>;--"), "plain text 123 <>;--");
}

#[test]
fn empty_input() {
    assert_eq!(escape(""), "");
}

#[test]
fn escaped_pair_escapes_again() {
    // Input is the two characters \ and ': each gets its own backslash.
    assert_eq!(escape("\\'"), "\\\\\\'");
}

#[test]
fn only_delimiters() {
    assert_eq!(escape("'''"), "\\'\\'\\'");
}

#[test]
fn round_trip_through_reference_parser() {
    // Embed the escaped text in a single-quoted literal and read it
    // back by hand, the way the proved reference parser does.
    let original = "it's a \\ 'test'";
    let embedded = format!("'{}'", escape(original));
    let inner: Vec<char> = embedded.chars().collect();
    assert_eq!(inner[0], '\'');
    let mut decoded = String::new();
    let mut i = 1;
    loop {
        assert!(i < inner.len(), "literal must be closed");
        if inner[i] == '\'' {
            i += 1;
            break;
        } else if inner[i] == '\\' {
            decoded.push(inner[i + 1]);
            i += 2;
        } else {
            decoded.push(inner[i]);
            i += 1;
        }
    }
    assert_eq!(i, inner.len(), "parser stops exactly at the closing quote");
    assert_eq!(decoded, original);
}
