use regex_lines::config::Selection;
use regex_lines::search::{search_extract, search_simple, CompiledPattern};

const PATTERNS: [&str; 5] = [
    r"(?<name>\w+)@(?<domain>\w+)",
    r"[a-z]+(?:(?<numbers>[0-9]+)|(?<letters>[A-Z]+))",
    r"(\d+)-(\w+)",
    r"(?<a>.(?<b>.))(.)(?:.)(?<c>.)",
    r"x(?<opt>y)?z",
];

const LINES: [&str; 6] = ["alice@example", "abc123", "abcXYZ", "42-foo", "xz xyz", ""];

const LABELS: [&str; 8] = ["name", "domain", "numbers", "letters", "a", "b", "c", "opt"];

#[test]
fn simple_agrees_with_the_matcher() {
    for pattern in PATTERNS {
        let theirs = regex::Regex::new(pattern).unwrap();
        let ours = CompiledPattern::compile(pattern).unwrap();
        for line in LINES {
            let expected = theirs.find(line).map(|m| m.as_str().to_string());
            assert_eq!(search_simple(&ours, line), expected);
        }
    }
}

#[test]
fn label_lookup_agrees_with_the_matcher() {
    let labels: Vec<String> = LABELS.iter().map(|l| l.to_string()).collect();
    for pattern in PATTERNS {
        let theirs = regex::Regex::new(pattern).unwrap();
        let ours = CompiledPattern::compile(pattern).unwrap();
        for line in LINES {
            let mut expected: Vec<String> = Vec::new();
            if let Some(groups) = theirs.captures(line) {
                for label in &labels {
                    if let Some(group) = groups.name(label) {
                        expected.push(group.as_str().to_string());
                    }
                }
            }
            let found = search_extract(&ours, &Selection::ByLabel(labels.clone()), line);
            assert_eq!(found, expected);
        }
    }
}

#[test]
fn position_lookup_agrees_with_the_matcher() {
    let positions: Vec<usize> = vec![3, 0, 1, 2, 4, 9];
    for pattern in PATTERNS {
        let theirs = regex::Regex::new(pattern).unwrap();
        let ours = CompiledPattern::compile(pattern).unwrap();
        for line in LINES {
            let mut expected: Vec<String> = Vec::new();
            if let Some(groups) = theirs.captures(line) {
                for position in &positions {
                    if let Some(group) = groups.get(*position + 1) {
                        expected.push(group.as_str().to_string());
                    }
                }
            }
            let found = search_extract(&ours, &Selection::ByIndex(positions.clone()), line);
            assert_eq!(found, expected);
        }
    }
}
