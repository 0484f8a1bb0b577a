use spotify_cli::storage::fuzzy::levenshtein_distance;

#[test]
fn levenshtein_basic() {
    assert_eq!(levenshtein_distance("kitten", "sitting"), 3);
    assert_eq!(levenshtein_distance("tool", "tool"), 0);
    assert_eq!(levenshtein_distance("", "abc"), 3);
}

#[test]
fn levenshtein_empty_strings() {
    assert_eq!(levenshtein_distance("", ""), 0);
    assert_eq!(levenshtein_distance("abc", ""), 3);
    assert_eq!(levenshtein_distance("", "xyz"), 3);
}

#[test]
fn levenshtein_single_char() {
    assert_eq!(levenshtein_distance("a", "b"), 1);
    assert_eq!(levenshtein_distance("a", "a"), 0);
}

#[test]
fn levenshtein_longer_strings() {
    assert_eq!(levenshtein_distance("hello", "hello"), 0);
    assert_eq!(levenshtein_distance("hello", "hallo"), 1);
    assert_eq!(levenshtein_distance("hello", "world"), 4);
}

#[test]
fn levenshtein_is_symmetric_and_bounded() {
    let words = ["", "a", "flaw", "lawn", "intention", "execution", "ünïcode"];
    for a in words {
        for b in words {
            let d = levenshtein_distance(a, b);
            assert_eq!(d, levenshtein_distance(b, a));
            assert!(d <= a.chars().count().max(b.chars().count()));
        }
    }
    assert_eq!(levenshtein_distance("intention", "execution"), 5);
}
