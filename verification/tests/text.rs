use cce_files::spaces::{remove_all, split_words, trim_str};

fn chars(s: &str) -> Vec<char> {
    s.chars().collect()
}

#[test]
fn trimming_removes_unicode_whitespace() {
    assert_eq!(trim_str("  a b \t\n"), "a b");
    assert_eq!(trim_str("\u{3000}x\u{a0}"), "x");
    assert_eq!(trim_str("   "), "");
}

#[test]
fn words_split_on_whitespace() {
    let ws: Vec<String> = split_words(&chars("  ab  c\td ")).iter().map(|w| w.iter().collect()).collect();
    assert_eq!(ws, vec!["ab".to_string(), "c".to_string(), "d".to_string()]);
    assert!(split_words(&chars("")).is_empty());
}

#[test]
fn removing_a_pattern_everywhere() {
    let r: String = remove_all(&chars("a%fb%f%%ff"), &chars("%f")).iter().collect();
    assert_eq!(r, "ab%f");
    let same: String = remove_all(&chars("abc"), &chars("")).iter().collect();
    assert_eq!(same, "abc");
}
