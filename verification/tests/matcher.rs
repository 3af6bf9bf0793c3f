use journal_alerts::matcher::{Matcher, MatcherError, Rule};

fn rule(pattern: &str, prefix: &str) -> Rule {
    Rule { pattern: pattern.to_string(), prefix: prefix.to_string() }
}

#[test]
fn test_matcher() {
    let rules = ["error", "warn", "(?i)quorum not reached"];

    let matcher =
        Matcher::new(&rules.iter().map(|s| s.to_string()).collect::<Vec<String>>()).unwrap();

    let tests = vec![
        (
            "This is an error message",
            Some((0, "This is an error message".to_string())),
        ),
        (
            "This is a warn message",
            Some((1, "This is a warn message".to_string())),
        ),
        (
            "Quorum not reached in the cluster",
            Some((2, "Quorum not reached in the cluster".to_string())),
        ),
        ("All systems operational", None),
    ];

    for (input, expected) in tests {
        assert_eq!(matcher.find_match(input), expected);
    }
}

#[test]
fn first_matching_rule_wins() {
    let rules = vec![rule("disk", "A: "), rule("error", "B: "), rule("disk error", "C: ")];
    let matcher = Matcher::compile(&rules).unwrap();
    assert_eq!(
        matcher.find_match("disk error on sda"),
        Some((0, "A: disk error on sda".to_string()))
    );
    assert_eq!(matcher.find_match("read error"), Some((1, "B: read error".to_string())));

    let swapped = vec![rule("error", "B: "), rule("disk", "A: ")];
    let matcher = Matcher::compile(&swapped).unwrap();
    assert_eq!(
        matcher.find_match("disk error on sda"),
        Some((0, "B: disk error on sda".to_string()))
    );
}

#[test]
fn alert_rule_tags_the_line() {
    let matcher = Matcher::compile(&[rule("error", "ERROR: ")]).unwrap();
    assert_eq!(
        matcher.find_match("disk error on sda"),
        Some((0, "ERROR: disk error on sda".to_string()))
    );
    assert_eq!(matcher.find_match("all clear"), None);
}

#[test]
fn empty_prefix_leaves_the_line_unchanged() {
    let matcher = Matcher::compile(&[rule("^up$", "")]).unwrap();
    assert_eq!(matcher.find_match("up"), Some((0, "up".to_string())));
    assert_eq!(matcher.find_match("upper"), None);
}

#[test]
fn matching_follows_the_pattern_not_the_text() {
    let matcher = Matcher::new(&["^a+b$".to_string(), "c|d".to_string()]).unwrap();
    assert_eq!(matcher.find_match("aaab"), Some((0, "aaab".to_string())));
    assert_eq!(matcher.find_match("^a+b$"), None);
    assert_eq!(matcher.find_match("xdx"), Some((1, "xdx".to_string())));
    assert_eq!(matcher.find_match("c|d"), Some((1, "c|d".to_string())));
}

#[test]
fn empty_rule_list_compiles_and_matches_nothing() {
    let matcher = Matcher::compile(&[]).unwrap();
    assert_eq!(matcher.len(), 0);
    assert_eq!(matcher.find_match("anything"), None);
    let matcher = Matcher::new(&[]).unwrap();
    assert_eq!(matcher.len(), 0);
    assert_eq!(matcher.find_match(""), None);
}

#[test]
fn compile_reports_the_offending_rule() {
    let rules = vec![rule("ok", ""), rule("(unclosed", "X "), rule("[", "")];
    let err = Matcher::compile(&rules).err().unwrap();
    assert_eq!(err.index(), 1);
    let MatcherError::InvalidPattern { index, pattern, cause } = err.clone();
    assert_eq!(index, 1);
    assert_eq!(pattern, "(unclosed");
    assert!(!cause.is_empty());
    assert_eq!(cause, regex::Regex::new("(unclosed").err().unwrap().to_string());
    assert_eq!(err.message(), format!("Invalid regex pattern '(unclosed': {}", cause));
}

#[test]
fn new_reports_the_offending_pattern() {
    let err = Matcher::new(&["[".to_string()]).err().unwrap();
    assert_eq!(err.index(), 0);
    let MatcherError::InvalidPattern { pattern, .. } = err;
    assert_eq!(pattern, "[");
}

#[test]
fn matcher_keeps_its_rule_count() {
    let matcher = Matcher::compile(&[rule("a", "1"), rule("b", "2"), rule("c", "3")]).unwrap();
    assert_eq!(matcher.len(), 3);
}

#[test]
fn one_rejected_pattern_rejects_the_whole_list() {
    let patterns = ["ok".to_string(), "(".to_string()];
    assert!(Matcher::new(&patterns).is_err());
    assert!(Matcher::new(&["ok".to_string()]).is_ok());
}

#[test]
fn error_names_the_first_rejected_pattern_with_its_cause() {
    let patterns =
        ["a".to_string(), "b+".to_string(), "[".to_string(), "fine".to_string(), "(".to_string()];
    let MatcherError::InvalidPattern { index, pattern, cause } =
        Matcher::new(&patterns).err().unwrap();
    assert_eq!(index, 2);
    assert_eq!(pattern, "[");
    assert_eq!(cause, regex::Regex::new("[").err().unwrap().to_string());
    assert!(cause != regex::Regex::new("(").err().unwrap().to_string());
}

#[test]
fn oversized_pattern_is_rejected() {
    let err = Matcher::new(&["x".to_string(), "\\w{1000}".to_string()]).err().unwrap();
    assert_eq!(err.index(), 1);
}
