use regex_lines::config::{ArgumentError, Cli, RegexMode, RunConfig, Selection};
use regex_lines::flow::{
    after_read, after_write, exit_status, Ending, ReadOutcome, ReadStep, WriteOutcome, WriteStep,
};

fn cli(label: Option<Vec<&str>>, index: Option<Vec<usize>>) -> Cli {
    Cli {
        label: label.map(|l| l.iter().map(|s| s.to_string()).collect()),
        index,
        regex: "a+".to_string(),
    }
}

#[test]
fn mode_is_simple_without_options() {
    assert_eq!(cli(None, None).mode(), RegexMode::Simple);
}

#[test]
fn mode_is_extract_with_either_option() {
    assert_eq!(cli(Some(vec!["x"]), None).mode(), RegexMode::Extract);
    assert_eq!(cli(None, Some(vec![0])).mode(), RegexMode::Extract);
    assert_eq!(cli(Some(vec![]), None).mode(), RegexMode::Extract);
    assert_eq!(cli(Some(vec!["x"]), Some(vec![0])).mode(), RegexMode::Extract);
}

#[test]
fn resolve_without_options_selects_the_whole_match() {
    let config = cli(None, None).resolve();
    assert_eq!(config, Ok(RunConfig { pattern: "a+".to_string(), selection: Selection::Whole }));
}

#[test]
fn resolve_keeps_labels_in_order() {
    let config = cli(Some(vec!["b", "a"]), None).resolve().unwrap();
    assert_eq!(config.pattern, "a+");
    assert_eq!(config.selection, Selection::ByLabel(vec!["b".to_string(), "a".to_string()]));
}

#[test]
fn resolve_keeps_indices_in_order() {
    let config = cli(None, Some(vec![3, 0, 3])).resolve().unwrap();
    assert_eq!(config.selection, Selection::ByIndex(vec![3, 0, 3]));
}

#[test]
fn resolve_refuses_labels_with_indices() {
    assert_eq!(cli(Some(vec!["x"]), Some(vec![0])).resolve(), Err(ArgumentError::Conflict));
}

#[test]
fn resolve_does_not_check_the_pattern() {
    let raw = Cli { label: None, index: None, regex: "(".to_string() };
    assert_eq!(raw.resolve().unwrap().pattern, "(");
}

#[test]
fn steps_after_a_read() {
    assert_eq!(after_read(ReadOutcome::Line), ReadStep::Process);
    assert_eq!(after_read(ReadOutcome::Undecodable), ReadStep::Skip);
    assert_eq!(after_read(ReadOutcome::EndOfInput), ReadStep::Finish);
}

#[test]
fn steps_after_a_write() {
    assert_eq!(after_write(WriteOutcome::Written), WriteStep::Continue);
    assert_eq!(after_write(WriteOutcome::Failed), WriteStep::Abort);
}

#[test]
fn a_closed_output_ends_the_run_as_a_success() {
    assert_eq!(after_write(WriteOutcome::BrokenPipe), WriteStep::Finish);
    assert_eq!(exit_status(Ending::ConsumerClosed), 0);
}

#[test]
fn exit_statuses() {
    assert_eq!(exit_status(Ending::Completed), 0);
    assert_eq!(exit_status(Ending::PatternRefused), 1);
    assert_eq!(exit_status(Ending::ArgumentsRefused), 2);
}
