use memetool::filter::{
    base_name_str, contains_str, ends_with_str, file_eligible, has_allowed_extension,
    search_matches, snapshot_filter, str_eq, vec_contains_str,
};

#[test]
fn extension_accepts_the_four_image_kinds() {
    assert!(has_allowed_extension("a.png"));
    assert!(has_allowed_extension("b.jpg"));
    assert!(has_allowed_extension("c.jpeg"));
    assert!(has_allowed_extension("d.gif"));
    assert!(!has_allowed_extension("c.txt"));
    assert!(!has_allowed_extension("noextension"));
    assert!(!has_allowed_extension(""));
}

#[test]
fn extension_check_is_case_insensitive() {
    assert!(has_allowed_extension("SHOUTY.PNG"));
    assert!(has_allowed_extension("Mixed.JpEg"));
    assert!(!has_allowed_extension("file.PNG.bak"));
}

#[test]
fn scenario_extension_filter_on_rescan() {
    let listing = vec![
        "a.png".to_string(),
        "b.jpg".to_string(),
        "c.txt".to_string(),
    ];
    let snapshot = snapshot_filter(&listing, "");
    assert_eq!(snapshot, vec!["a.png".to_string(), "b.jpg".to_string()]);
}

#[test]
fn snapshot_filter_keeps_listing_order() {
    let listing = vec![
        "z.png".to_string(),
        "nope.doc".to_string(),
        "a.gif".to_string(),
        "m.jpeg".to_string(),
    ];
    let snapshot = snapshot_filter(&listing, "");
    assert_eq!(
        snapshot,
        vec!["z.png".to_string(), "a.gif".to_string(), "m.jpeg".to_string()]
    );
}

#[test]
fn search_filters_on_the_file_name_only() {
    // The directory part does not count as a match.
    let listing = vec![
        "cats/dog.png".to_string(),
        "dogs/cat.png".to_string(),
    ];
    let snapshot = snapshot_filter(&listing, "cat");
    assert_eq!(snapshot, vec!["dogs/cat.png".to_string()]);
}

#[test]
fn search_is_case_insensitive_and_multi_term() {
    assert!(search_matches("My Holiday Cat.png", "cat holiday"));
    assert!(search_matches("My Holiday Cat.png", "CAT"));
    assert!(!search_matches("My Holiday Cat.png", "cat dog"));
    assert!(search_matches("anything.jpg", ""));
    assert!(search_matches("anything.jpg", "   "));
}

#[test]
fn eligibility_needs_extension_and_search() {
    assert!(file_eligible("pics/Cat.PNG", "cat"));
    assert!(!file_eligible("pics/Cat.TXT", "cat"));
    assert!(!file_eligible("pics/Dog.png", "cat"));
}

#[test]
fn contains_and_ends_with_behave_like_substring_search() {
    assert!(contains_str("hello world", "lo wo"));
    assert!(contains_str("hello", ""));
    assert!(!contains_str("hello", "world"));
    assert!(!contains_str("hi", "hello"));
    assert!(ends_with_str("archive.tar.gz", ".gz"));
    assert!(!ends_with_str("archive.tar.gz", ".tar"));
    assert!(ends_with_str("x", ""));
}

#[test]
fn string_equality_and_membership() {
    assert!(str_eq("abc", "abc"));
    assert!(!str_eq("abc", "abd"));
    assert!(!str_eq("abc", "ab"));
    let v = vec!["one".to_string(), "two".to_string()];
    assert!(vec_contains_str(&v, "two"));
    assert!(!vec_contains_str(&v, "three"));
}

#[test]
fn base_name_takes_what_follows_the_last_slash() {
    assert_eq!(base_name_str("a/b/c.png"), "c.png");
    assert_eq!(base_name_str("c.png"), "c.png");
    assert_eq!(base_name_str("dir/"), "");
    assert_eq!(base_name_str(""), "");
}

#[test]
fn repeated_spaces_between_words_change_nothing() {
    assert!(search_matches("My Holiday Cat.png", "  cat   holiday  "));
    assert!(!search_matches("My Holiday Cat.png", "  cat   dog  "));
}

#[test]
fn case_folding_reaches_beyond_ascii() {
    assert!(has_allowed_extension("\u{c4}rger.PNG"));
    assert!(search_matches("\u{c4}rger.png", "\u{e4}rger"));
}
