use rencfs_winfsp::path::{path_components, split_components};
use rencfs_winfsp::text::is_before;

fn wide(text: &str) -> Vec<u16> {
    text.encode_utf16().collect()
}

#[test]
fn both_separators_split_a_path() {
    assert_eq!(path_components(&wide("\\a\\b/c")), vec!["a", "b", "c"]);
}

#[test]
fn empty_pieces_are_dropped() {
    assert_eq!(path_components(&wide("\\\\a//b\\")), vec!["a", "b"]);
    assert!(path_components(&wide("\\")).is_empty());
    assert!(path_components(&[]).is_empty());
}

#[test]
fn names_outside_ascii_are_decoded() {
    assert_eq!(
        path_components(&wide("\\\u{e9}t\u{e9}\\\u{1f512}")),
        vec!["\u{e9}t\u{e9}", "\u{1f512}"]
    );
}

#[test]
fn unpaired_surrogates_become_replacement_characters() {
    let path: Vec<u16> = vec![0x5C, 0xD800, 0x61, 0x5C, 0xDC00, 0xD83D];
    assert_eq!(path_components(&path), vec!["\u{fffd}a", "\u{fffd}\u{fffd}"]);
}

#[test]
fn high_surrogate_before_a_pair_is_replaced_alone() {
    let path: Vec<u16> = vec![0xD83D, 0xD83D, 0xDD12];
    assert_eq!(path_components(&path), vec!["\u{fffd}\u{1f512}"]);
}

#[test]
fn a_name_without_separators_is_its_own_path() {
    assert_eq!(split_components("notes.txt"), vec!["notes.txt"]);
    assert_eq!(split_components("x/y"), vec!["x", "y"]);
}

#[test]
fn names_are_ordered_by_their_bytes() {
    assert!(is_before("a", "b"));
    assert!(is_before("", "a"));
    assert!(is_before("a", "aa"));
    assert!(is_before("B", "a"));
    assert!(is_before("z", "\u{e9}"));
    assert!(is_before("\u{ffff}", "\u{10000}"));
    assert!(!is_before("a", "a"));
    assert!(!is_before("b", "a"));
    assert!(!is_before("aa", "a"));
}

#[test]
fn order_of_names_is_the_order_of_strings() {
    let names: [&str; 7] = ["", "A", "a", "ab", "b", "\u{e9}", "\u{1f512}"];
    for left in names {
        for right in names {
            assert_eq!(is_before(left, right), left < right);
        }
    }
}
