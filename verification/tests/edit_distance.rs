use frieze::edit_distance::{levenshtein, suggest};

#[test]
fn distance_covers_the_classic_cases() {
    assert_eq!(levenshtein("", ""), 0);
    assert_eq!(levenshtein("partial", "partial"), 0);
    assert_eq!(levenshtein("", "abc"), 3);
    assert_eq!(levenshtein("abc", ""), 3);
    // One substitution.
    assert_eq!(levenshtein("nome", "name"), 1);
    // A transposition costs two single-char edits.
    assert_eq!(levenshtein("parital", "partial"), 2);
    assert_eq!(levenshtein("kitten", "sitting"), 3);
}

#[test]
fn suggests_the_closest_known_key_for_a_plausible_typo() {
    let known = ["name", "partial", "output"];
    assert_eq!(suggest("parital", &known), Some("partial"));
    assert_eq!(suggest("ouput", &known), Some("output"));
    assert_eq!(suggest("nme", &known), Some("name"));
}

#[test]
fn stays_silent_when_nothing_is_close() {
    let known = ["name", "partial", "output"];
    assert_eq!(suggest("description", &known), None);
    assert_eq!(suggest("x", &known), None);
}

#[test]
fn distance_to_itself_is_zero() {
    for s in ["", "a", "features", "oas-version"] {
        assert_eq!(levenshtein(s, s), 0);
    }
}

#[test]
fn distance_counts_characters_not_bytes() {
    assert_eq!(levenshtein("é", "e"), 1);
}
