use gilded_rose::text::{chars_of, contains, find_in, matches_at};

#[test]
fn contains_finds_a_run_anywhere() {
    assert!(contains("Sulfuras, Hand of Ragnaros", "Sulfuras"));
    assert!(contains("Hand of Sulfuras", "Sulfuras"));
    assert!(contains("The Sulfuras hammer", "Sulfuras"));
    assert!(contains("abc", "abc"));
}

#[test]
fn contains_rejects_what_is_not_there() {
    assert!(!contains("Sulfura", "Sulfuras"));
    assert!(!contains("Sulfu ras", "Sulfuras"));
    assert!(!contains("sulfuras", "Sulfuras"));
    assert!(!contains("", "a"));
    assert!(!contains("aab", "aba"));
}

#[test]
fn contains_handles_repeats_and_overlaps() {
    assert!(contains("aaab", "aab"));
    assert!(contains("abababc", "ababc"));
    assert!(!contains("ababab", "ababc"));
}

#[test]
fn empty_needle_is_everywhere() {
    assert!(contains("abc", ""));
    assert!(contains("", ""));
}

#[test]
fn contains_counts_characters_not_bytes() {
    assert!(contains("Âged — Aged Brie ✓", "Aged Brie"));
    assert!(contains("crème brûlée", "brûlée"));
    assert!(!contains("crème brûlée", "brulee"));
}

#[test]
fn contains_agrees_with_std() {
    let hays = ["", "a", "ab", "aab", "abab", "Aged Brie", "Conjured Aged Brie", "ééé"];
    let needles = ["", "a", "b", "ab", "ba", "aab", "Aged", "Brie", "é", "éé"];
    for hay in hays {
        for needle in needles {
            assert_eq!(hay.contains(needle), contains(hay, needle));
        }
    }
}

#[test]
fn chars_of_lists_the_characters() {
    assert_eq!(vec!['a', 'é', '✓'], chars_of("aé✓"));
    assert!(chars_of("").is_empty());
}

#[test]
fn matches_at_checks_one_place() {
    let hay = chars_of("abcabc");
    let needle = chars_of("bc");
    assert!(!matches_at(&hay, &needle, 0));
    assert!(matches_at(&hay, &needle, 1));
    assert!(matches_at(&hay, &needle, 4));
    assert!(matches_at(&hay, &[], 6));
}

#[test]
fn find_in_searches_slices() {
    let hay = chars_of("abcabc");
    assert!(find_in(&hay, &chars_of("cab")));
    assert!(!find_in(&hay, &chars_of("cba")));
    assert!(!find_in(&hay, &chars_of("abcabca")));
}
