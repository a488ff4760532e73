use slash_commands::text::{join, replace, str_eq};

fn strings(parts: &[&str]) -> Vec<String> {
    parts.iter().map(|s| s.to_string()).collect()
}

#[test]
fn join_matches_separator_rules() {
    assert_eq!(join(&strings(&[]), " "), "");
    assert_eq!(join(&strings(&["solo"]), " "), "solo");
    assert_eq!(join(&strings(&["a", "b", "c"]), " "), "a b c");
    assert_eq!(join(&strings(&["typing", "extensions"]), "-"), "typing-extensions");
    assert_eq!(join(&strings(&["", ""]), "-"), "-");
}

#[test]
fn replace_scans_left_to_right_without_overlap() {
    assert_eq!(replace("github", "github", "uithub"), "uithub");
    assert_eq!(replace("aaa", "aa", "b"), "ba");
    assert_eq!(replace("one two one", "one", "1"), "1 two 1");
    assert_eq!(replace("none here", "zzz", "x"), "none here");
    assert_eq!(replace("", "zzz", "x"), "");
    assert_eq!(replace("ab", "abc", "x"), "ab");
}

#[test]
fn str_eq_compares_contents() {
    assert!(str_eq("pick-one", "pick-one"));
    assert!(!str_eq("pick-one", "pick-two"));
    assert!(!str_eq("short", "shorter"));
    assert!(str_eq("", ""));
}
