use grand_eden_launcher::text::{
    decimal_string, join_strings, log_tail, nth_field, replace_all, starts_with,
};

#[test]
fn replace_all_fills_every_occurrence() {
    assert_eq!(replace_all("a${x}b${x}", "${x}", "1"), "a1b1");
    assert_eq!(replace_all("no placeholder", "${x}", "1"), "no placeholder");
    assert_eq!(replace_all("${x}", "${x}", ""), "");
}

#[test]
fn replace_all_scans_from_the_left_without_overlap() {
    assert_eq!(replace_all("aaa", "aa", "b"), "ba");
    assert_eq!(replace_all("aaaa", "aa", "b"), "bb");
    assert_eq!("aaa".replace("aa", "b"), replace_all("aaa", "aa", "b"));
}

#[test]
fn replace_all_handles_wide_characters() {
    assert_eq!(replace_all("Игрок ${n}!", "${n}", "Стив"), "Игрок Стив!");
}

#[test]
fn starts_with_matches_str() {
    assert!(starts_with("-DignoreList=a,b", "-DignoreList="));
    assert!(!starts_with("-Dignore", "-DignoreList="));
    assert!(starts_with("x", ""));
}

#[test]
fn decimal_string_matches_to_string() {
    assert_eq!(decimal_string(0), "0");
    assert_eq!(decimal_string(7), "7");
    assert_eq!(decimal_string(4096), "4096");
    assert_eq!(decimal_string(u64::MAX), u64::MAX.to_string());
}

#[test]
fn join_strings_puts_separator_between() {
    let parts = vec!["a".to_string(), "b".to_string(), "c".to_string()];
    assert_eq!(join_strings(&parts, ";"), "a;b;c");
    assert_eq!(join_strings(&vec![], ";"), "");
    assert_eq!(join_strings(&vec!["x".to_string()], ";"), "x");
}

#[test]
fn nth_field_splits_like_str_split() {
    assert_eq!(nth_field("1.20.1-47.2.0", '-', 1), Some("47.2.0".to_string()));
    assert_eq!(nth_field("1.20.1-47.2.0", '-', 0), Some("1.20.1".to_string()));
    assert_eq!(nth_field("1.20.1-47.2.0", '-', 2), None);
    assert_eq!(nth_field("a--b", '-', 1), Some(String::new()));
    assert_eq!(nth_field("", '-', 0), Some(String::new()));
}

#[test]
fn log_tail_reverses_last_lines() {
    assert_eq!(log_tail("a\r\nb\nc\n"), "c\nb\na");
    assert_eq!(log_tail(""), "");
    assert_eq!(log_tail("only"), "only");
    assert_eq!(log_tail("x\r"), "x\r");
    assert_eq!(log_tail("\n"), "");
}

#[test]
fn log_tail_keeps_thirty_lines() {
    let content: String = (1..=35).map(|i| format!("line{}\n", i)).collect();
    let tail = log_tail(&content);
    let lines: Vec<&str> = tail.split('\n').collect();
    assert_eq!(lines.len(), 30);
    assert_eq!(lines[0], "line35");
    assert_eq!(lines[29], "line6");
    let expected: String = content.lines().rev().take(30).collect::<Vec<_>>().join("\n");
    assert_eq!(tail, expected);
}
