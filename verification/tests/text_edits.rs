use anki_card_adjuster::edits::{edit_value, remove_newlines};
use anki_card_adjuster::text::replace;

#[test]
fn replace_every_occurrence() {
    assert_eq!(replace("a-b-c", "-", "+"), "a+b+c");
    assert_eq!(replace("no match here", "xyz", "!"), "no match here");
    assert_eq!(replace("", "a", "b"), "");
}

#[test]
fn replace_never_overlaps() {
    assert_eq!(replace("aaa", "aa", "b"), "ba");
    assert_eq!(replace("aaaa", "aa", "b"), "bb");
}

#[test]
fn replace_empty_pattern_surrounds_every_character() {
    assert_eq!(replace("ab", "", "-"), "-a-b-");
    assert_eq!(replace("", "", "-"), "-");
}

#[test]
fn replace_agrees_with_std() {
    let cases = [
        ("読み<br>よみ", "<br>", " "),
        ("abcabcab", "abc", ""),
        ("xxyxx", "x", "xx"),
        ("漢字", "", "|"),
        ("mississippi", "issi", "ISSI"),
    ];
    for (text, pat, rep) in cases {
        assert_eq!(replace(text, pat, rep), text.replace(pat, rep));
    }
}

#[test]
fn replace_by_itself_changes_nothing() {
    for text in ["", "漢字<br>かんじ", "aaa"] {
        for pat in ["", "a", "<br>", "漢"] {
            assert_eq!(replace(text, pat, pat), text);
        }
    }
}

#[test]
fn remove_newlines_as_space_or_nothing() {
    assert_eq!(remove_newlines("one<br>two<br>three", true), "one two three");
    assert_eq!(remove_newlines("one<br>two<br>three", false), "onetwothree");
    assert_eq!(remove_newlines("no breaks", false), "no breaks");
}

#[test]
fn remove_newlines_as_space_leaves_no_break() {
    assert_eq!(remove_newlines("<<br>br>", true), "< br>");
    assert!(!remove_newlines("<br><br<br>>br>", true).contains("<br>"));
}

#[test]
fn remove_newlines_without_space_can_join_a_new_break() {
    assert_eq!(remove_newlines("<<br>br>", false), "<br>");
}

#[test]
fn edit_value_replaces_then_removes_breaks() {
    assert_eq!(edit_value("cat<br>hat", "at", "og", false, false), "cog<br>hog");
    assert_eq!(edit_value("cat<br>hat", "at", "og", true, true), "cog hog");
    assert_eq!(edit_value("cat<br>hat", "at", "og", true, false), "coghog");
    assert_eq!(edit_value("Reading", "", "", false, false), "Reading");
}
