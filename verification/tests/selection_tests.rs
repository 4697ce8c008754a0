use evertext_runner::selection::{scan_entries, select_server_index};

fn chars(s: &str) -> Vec<char> {
    s.chars().collect()
}

fn pick(history: &str, target: Option<&str>) -> String {
    let h = chars(history);
    let t = target.map(str::to_string);
    select_server_index(&h, &t).into_iter().collect()
}

#[test]
fn picks_entry_containing_target() {
    assert_eq!(pick("1--> Alice (E-10)\n2--> Bob (E-15)", Some("E-15")), "2");
}

#[test]
fn all_keyword_matches_all_of_them() {
    assert_eq!(pick("3--> Carl (All of them)", Some("all")), "3");
    assert_eq!(pick("3--> Carl (All of them)", Some("ALL")), "3");
}

#[test]
fn target_match_is_case_sensitive() {
    assert_eq!(pick("1--> Alice (E-10)\n2--> Bob (E-15)", Some("e-15")), "1");
}

#[test]
fn no_match_defaults_to_one() {
    assert_eq!(pick("1--> Alice (E-10)\n2--> Bob (E-15)", Some("E-99")), "1");
}

#[test]
fn no_target_defaults_to_one() {
    assert_eq!(pick("1--> Alice (E-10)\n2--> Bob (E-15)", None), "1");
}

#[test]
fn first_matching_entry_wins() {
    assert_eq!(pick("1--> A (E-7)\n2--> B (E-7)", Some("E-7")), "1");
}

#[test]
fn multi_digit_index_is_kept_whole() {
    assert_eq!(pick("12--> Long (E-3)", Some("E-3")), "12");
}

#[test]
fn entry_never_crosses_a_line_break() {
    assert_eq!(pick("1--> broken\n2--> B (A)", Some("A")), "2");
}

#[test]
fn scan_collects_entries_in_order() {
    let h = chars("1--> Alice (E-10)\n2--> Bob (E-15)");
    let entries = scan_entries(&h);
    let pairs: Vec<(String, String)> = entries
        .iter()
        .map(|(i, n)| (i.iter().collect(), n.iter().collect()))
        .collect();
    assert_eq!(
        pairs,
        vec![
            ("1".to_string(), "E-10".to_string()),
            ("2".to_string(), "E-15".to_string()),
        ]
    );
}
