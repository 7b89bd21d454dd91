use vanity_bip39::pattern::Pattern;

#[test]
fn invalid_regex_fails_to_compile() {
    assert!(Pattern::compile("(").is_none());
    assert!(Pattern::compile("[z-a]").is_none());
}

#[test]
fn empty_pattern_matches_everything() {
    let p = Pattern::compile("").unwrap();
    assert!(p.is_match("9858effd232b4033e47d90003d41ec34ecaeda94"));
    assert!(p.is_match(""));
}

#[test]
fn literal_substring_pattern() {
    let p = Pattern::compile("dead").unwrap();
    assert!(p.is_match("00deadbeef0000000000000000000000000000ff"));
    assert!(!p.is_match("9858effd232b4033e47d90003d41ec34ecaeda94"));
}

#[test]
fn anchored_leading_zeros_pattern() {
    let p = Pattern::compile("^0000").unwrap();
    assert!(p.is_match("0000a92d8d61b48a9fff8d58080425a3012d05c8"));
    assert!(!p.is_match("a000092d8d61b48a9fff8d58080425a3012d05c8"));
}

#[test]
fn verdict_agrees_with_the_regex_engine() {
    // Fixture addresses held against the regex crate directly.
    let fixtures = [
        "9858effd232b4033e47d90003d41ec34ecaeda94",
        "0000000000000000000000000000000000000000",
        "00deadbeef0000000000000000000000000000ff",
        "63f9a92d8d61b48a9fff8d58080425a3012d05c8",
    ];
    let patterns = ["^00", "dead|beef", "(00){3,}", "[a-f]{4}$", "^[0-9]+$"];
    for pat in patterns {
        let compiled = Pattern::compile(pat).unwrap();
        let engine = regex::Regex::new(pat).unwrap();
        for addr in fixtures {
            assert_eq!(compiled.is_match(addr), engine.is_match(addr));
        }
    }
}
