use auditooor::{
    analyzing, collect_locations, decimal_string, first_invalid_pattern, format_location,
    gas_op_issues, has_solidity_extension, is_comment_match, is_relevant, line_from_bytes, low_issues,
    non_critical_issues, relevant_indices, render_section, starts_with_slash, RulesDataBase,
    ScanError,
};

fn rule(pattern: &str) -> RulesDataBase {
    RulesDataBase::new("X-01", "Title", "Desc", pattern, "Fix it")
}

#[test]
fn line_number_examples() {
    let content = "abc\ndef\nghi";
    assert_eq!(line_from_bytes(content, 4, 4), 2);
    assert_eq!(line_from_bytes(content, 0, 0), 1);
    assert_eq!(line_from_bytes(content, content.len(), content.len()), 3);
}

#[test]
fn line_number_past_end_counts_all_newlines() {
    assert_eq!(line_from_bytes("a\nb\n", 100, 100), 3);
    assert_eq!(line_from_bytes("", 0, 0), 1);
    assert_eq!(line_from_bytes("\n", 0, 0), 1);
    assert_eq!(line_from_bytes("\n", 1, 1), 2);
}

#[test]
fn line_number_never_decreases() {
    let content = "x\n\ny\nzz\n";
    let mut last = 0;
    for off in 0..content.len() + 3 {
        let l = line_from_bytes(content, off, off);
        assert!(l >= last);
        last = l;
    }
}

#[test]
fn comment_heuristic() {
    assert!(is_comment_match("// require(x > 0)"));
    assert!(!is_comment_match("require(x > 0)"));
    assert!(is_comment_match("   /* note */  "));
    assert!(!is_comment_match("   "));
    assert!(!is_comment_match("a // b"));
}

#[test]
fn slash_check() {
    assert!(starts_with_slash("/x"));
    assert!(!starts_with_slash(""));
    assert!(!starts_with_slash(" /x"));
}

#[test]
fn decimal_and_location_format() {
    assert_eq!(decimal_string(0), "0");
    assert_eq!(decimal_string(7), "7");
    assert_eq!(decimal_string(1203), "1203");
    assert_eq!(format_location("Foo.sol", 12, "abc"), "(Foo.sol Line-12) -> abc");
}

#[test]
fn end_to_end_require_rule() {
    let rules = gas_op_issues();
    let idx = rules
        .iter()
        .position(|r| r.rule == "(require.*>0|require.*> 0)")
        .unwrap();
    let out = analyzing("Foo.sol", "require(x>0);", &rules).unwrap();
    assert_eq!(out.len(), rules.len());
    assert_eq!(out[idx].location, vec!["(Foo.sol Line-1) -> require(x>0".to_string()]);
    let out2 = analyzing("Foo.sol", "require(x != 0);", &rules).unwrap();
    assert!(out2[idx].location.is_empty());
}

#[test]
fn findings_skip_comment_matches() {
    let rules = vec![rule("(// )?require.*>0")];
    let content = "// require(a>0)\n  require(b>0);\nrequire(c>0)";
    let out = analyzing("A.sol", content, &rules).unwrap();
    assert_eq!(
        out[0].location,
        vec![
            "(A.sol Line-2) -> require(b>0".to_string(),
            "(A.sol Line-3) -> require(c>0".to_string()
        ]
    );
}

#[test]
fn non_overlapping_matches_each_reported() {
    let rules = vec![rule("ab")];
    let out = analyzing("B.sol", "abab\nxab", &rules).unwrap();
    assert_eq!(
        out[0].location,
        vec![
            "(B.sol Line-1) -> ab".to_string(),
            "(B.sol Line-1) -> ab".to_string(),
            "(B.sol Line-2) -> ab".to_string()
        ]
    );
}

#[test]
fn collect_locations_from_given_matches() {
    let content = "one\ntwo\nthree";
    let found = vec![
        (0usize, "one".to_string()),
        (4usize, " // two".to_string()),
        (8usize, "three".to_string()),
    ];
    let locs = collect_locations("C.sol", content, &found);
    assert_eq!(
        locs,
        vec!["(C.sol Line-1) -> one".to_string(), "(C.sol Line-3) -> three".to_string()]
    );
}

#[test]
fn invalid_pattern_is_reported() {
    let rules = vec![rule("ok"), rule("(unclosed"), rule("also(")];
    assert_eq!(first_invalid_pattern(&rules), Some(1));
    assert_eq!(analyzing("D.sol", "ok", &rules), Err(ScanError::InvalidPattern(1)));
    assert_eq!(first_invalid_pattern(&vec![rule("a"), rule("b")]), None);
}

#[test]
fn catalog_patterns_all_compile() {
    assert_eq!(first_invalid_pattern(&gas_op_issues()), None);
    assert_eq!(first_invalid_pattern(&low_issues()), None);
    assert_eq!(first_invalid_pattern(&non_critical_issues()), None);
}

#[test]
fn catalog_shapes() {
    let g = gas_op_issues();
    let l = low_issues();
    let n = non_critical_issues();
    assert_eq!((g.len(), l.len(), n.len()), (15, 8, 5));
    assert_eq!(g[0].id, "G-08");
    assert_eq!(g[1].id, "G-08");
    assert_eq!(g[0].rule, "pragma solidity  (\\^|>)");
    assert_eq!(l[3].rule, "TODO");
    assert_eq!(n[0].rule, "ecrecover");
    assert!(g.iter().chain(l.iter()).chain(n.iter()).all(|r| r.location.is_empty()));
}

#[test]
fn lookaround_rule_matches() {
    let rules = non_critical_issues();
    let content = "contract A {\n    token.approve(spender, 1);\n    function approve(address s) public {}\n}";
    let out = analyzing("E.sol", content, &rules).unwrap();
    let approve = &out[4];
    assert_eq!(approve.id, "N-06");
    assert_eq!(approve.location.len(), 1);
    // The match begins at the newline that ends line one.
    assert_eq!(approve.location[0], "(E.sol Line-1) -> \n    token.approve(");
}

#[test]
fn scans_are_deterministic() {
    let content = "pragma solidity ^0.8.0;\nfor (uint i = 0; i < a.length; i++) {}\nrequire(x > 0, \"a very long revert string that exceeds\");";
    for rules in [gas_op_issues(), low_issues(), non_critical_issues()] {
        let a = analyzing("F.sol", content, &rules).unwrap();
        let b = analyzing("F.sol", content, &rules).unwrap();
        assert_eq!(a, b);
        assert_eq!(render_section("F.sol", &a), render_section("F.sol", &b));
    }
}

#[test]
fn relevance_and_indices() {
    let mut a = rule("x");
    let b = rule("y");
    let mut c = rule("z");
    assert!(!is_relevant(&vec![a.clone(), b.clone()]));
    assert!(relevant_indices(&vec![a.clone(), b.clone()]).is_empty());
    a.location.push("l1".to_string());
    c.location.push("l2".to_string());
    let v = vec![a, b, c];
    assert!(is_relevant(&v));
    assert_eq!(relevant_indices(&v), vec![0, 2]);
    assert!(!is_relevant(&vec![]));
}

#[test]
fn render_skips_empty_entries() {
    let mut a = RulesDataBase::new("A", "First", "D1", "p", "R1");
    let b = RulesDataBase::new("B", "Unused", "D2", "q", "R2");
    let mut c = RulesDataBase::new("C", "Third", "D3", "r", "R3");
    a.location.push("(F.sol Line-1) -> x".to_string());
    c.location.push("(F.sol Line-2) -> y".to_string());
    c.location.push("(F.sol Line-5) -> z".to_string());
    let text = render_section("F.sol", &vec![a, b, c]);
    let expected = "# F.sol\n\
## 1. First\n#### D1\nCase 0#:\n```solidity\n(F.sol Line-1) -> x\n```\n\n#### R1\n\
## 2. Third\n#### D3\nCase 0#:\n```solidity\n(F.sol Line-2) -> y\n```\n\n\
Case 1#:\n```solidity\n(F.sol Line-5) -> z\n```\n\n#### R3\n";
    assert_eq!(text, expected);
    assert!(!text.contains("Unused"));
}

#[test]
fn render_irrelevant_is_empty() {
    let v = vec![rule("a"), rule("b")];
    assert_eq!(render_section("G.sol", &v), "");
}

#[test]
fn default_entry_is_empty() {
    let d = RulesDataBase::default();
    assert!(d.id.is_empty() && d.title.is_empty() && d.rule.is_empty());
    assert!(d.location.is_empty());
}

#[test]
fn solidity_extension() {
    assert!(has_solidity_extension("Foo.sol"));
    assert!(has_solidity_extension(".sol"));
    assert!(!has_solidity_extension("Foo.so"));
    assert!(!has_solidity_extension("Foo.sol.bak"));
    assert!(!has_solidity_extension("sol"));
}

#[test]
fn engine_failure_is_reported() {
    let rules = vec![rule("a"), rule("(a|aa)+\\1b")];
    let content = "a".repeat(60);
    assert_eq!(analyzing("H.sol", &content, &rules), Err(ScanError::MatchFailed(1)));
}

#[test]
fn comment_heuristic_unicode_white_space() {
    assert!(is_comment_match("\u{3000}\u{a0}\t/ note\u{2029}"));
    assert!(!is_comment_match("\u{200b}/ note"));
}
