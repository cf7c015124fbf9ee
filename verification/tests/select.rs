use regex_lines::config::Selection;
use regex_lines::select::{
    group_number, group_text, select_by_index, select_by_label, select_groups,
};

fn some(text: &str) -> Option<String> {
    Some(text.to_string())
}

fn strings(items: &[&str]) -> Vec<String> {
    items.iter().map(|s| s.to_string()).collect()
}

fn sample_texts() -> Vec<Option<String>> {
    vec![some("42-foo"), some("42"), None, some("foo")]
}

fn sample_names() -> Vec<Option<String>> {
    vec![None, some("num"), some("gap"), some("word")]
}

#[test]
fn group_number_finds_a_name() {
    assert_eq!(group_number(&sample_names(), &"num".to_string()), Some(1));
    assert_eq!(group_number(&sample_names(), &"word".to_string()), Some(3));
}

#[test]
fn group_number_of_an_unknown_name() {
    assert_eq!(group_number(&sample_names(), &"nope".to_string()), None);
    assert_eq!(group_number(&sample_names(), &String::new()), None);
    assert_eq!(group_number(&Vec::new(), &"num".to_string()), None);
}

#[test]
fn group_number_is_the_first_with_that_name() {
    let names = vec![None, some("a"), some("b"), some("a")];
    assert_eq!(group_number(&names, &"a".to_string()), Some(1));
}

#[test]
fn group_text_by_number() {
    assert_eq!(group_text(&sample_texts(), 0), some("42-foo"));
    assert_eq!(group_text(&sample_texts(), 1), some("42"));
    assert_eq!(group_text(&sample_texts(), 2), None);
    assert_eq!(group_text(&sample_texts(), 4), None);
    assert_eq!(group_text(&sample_texts(), usize::MAX), None);
}

#[test]
fn select_by_index_shifts_by_one() {
    assert_eq!(select_by_index(&sample_texts(), &vec![0]), strings(&["42"]));
    assert_eq!(select_by_index(&sample_texts(), &vec![2, 0]), strings(&["foo", "42"]));
}

#[test]
fn select_by_index_skips_what_is_missing() {
    assert_eq!(select_by_index(&sample_texts(), &vec![1, 3, usize::MAX, 0]), strings(&["42"]));
    assert!(select_by_index(&sample_texts(), &vec![]).is_empty());
    assert!(select_by_index(&vec![some("only")], &vec![0]).is_empty());
}

#[test]
fn select_by_label_follows_the_labels() {
    let out = select_by_label(&sample_texts(), &sample_names(), &strings(&["word", "num", "word"]));
    assert_eq!(out, strings(&["foo", "42", "foo"]));
}

#[test]
fn select_by_label_skips_what_is_missing() {
    let out = select_by_label(&sample_texts(), &sample_names(), &strings(&["gap", "nope", "num"]));
    assert_eq!(out, strings(&["42"]));
    assert!(select_by_label(&sample_texts(), &sample_names(), &vec![]).is_empty());
}

#[test]
fn select_by_label_with_fewer_texts_than_names() {
    let out = select_by_label(&vec![some("x")], &sample_names(), &strings(&["num"]));
    assert!(out.is_empty());
}

#[test]
fn select_groups_without_a_match() {
    let names = sample_names();
    assert!(select_groups(&None, &names, &Selection::ByIndex(vec![0])).is_empty());
    assert!(select_groups(&None, &names, &Selection::ByLabel(strings(&["num"]))).is_empty());
    assert!(select_groups(&None, &names, &Selection::Whole).is_empty());
}

#[test]
fn select_groups_with_a_match() {
    let texts = Some(sample_texts());
    let names = sample_names();
    assert_eq!(select_groups(&texts, &names, &Selection::ByIndex(vec![0, 2])), strings(&["42", "foo"]));
    assert_eq!(
        select_groups(&texts, &names, &Selection::ByLabel(strings(&["word"]))),
        strings(&["foo"])
    );
    assert!(select_groups(&texts, &names, &Selection::Whole).is_empty());
}
