use aws_smithy_types::retry::RetryMode;
use cargo_lambda_deploy::output::OutputFormat;
use cargo_lambda_deploy::retry::{RetryPolicy, RetryStrategy};
use cargo_lambda_deploy::tags::{extract_tags, resolve_tags, split_tag};
use std::time::Duration;

fn strings(v: &[&str]) -> Vec<String> {
    v.iter().map(|s| s.to_string()).collect()
}

#[test]
fn delimited_list_wins_over_repeated_tags() {
    let tag = Some(strings(&["c=3"]));
    let tags = Some(strings(&["a=1", "b=2"]));
    let m = resolve_tags(&tag, &tags).unwrap();
    assert_eq!(m.len(), 2);
    assert_eq!(m.get("a"), Some(&"1".to_string()));
    assert_eq!(m.get("b"), Some(&"2".to_string()));
    assert_eq!(m.get("c"), None);
}

#[test]
fn empty_delimited_list_still_wins() {
    let tag = Some(strings(&["c=3"]));
    let tags = Some(Vec::new());
    let m = resolve_tags(&tag, &tags).unwrap();
    assert_eq!(m.len(), 0);
}

#[test]
fn repeated_tags_used_without_list_and_malformed_dropped() {
    let tag = Some(strings(&["x=1", "y"]));
    let m = resolve_tags(&tag, &None).unwrap();
    assert_eq!(m.len(), 1);
    assert_eq!(m.get("x"), Some(&"1".to_string()));
    assert_eq!(m.get("y"), None);
}

#[test]
fn no_tag_options_give_no_tags() {
    assert!(resolve_tags(&None, &None).is_none());
}

#[test]
fn tag_splits_at_first_equals_and_later_keys_win() {
    let m = extract_tags(&strings(&["k=v=w", "team=a", "team=b", "=empty", "plain"]));
    assert_eq!(m.len(), 3);
    assert_eq!(m.get("k"), Some(&"v=w".to_string()));
    assert_eq!(m.get("team"), Some(&"b".to_string()));
    assert_eq!(m.get(""), Some(&"empty".to_string()));
}

#[test]
fn split_tag_gives_key_and_value() {
    assert_eq!(split_tag("organization=aws"), Some(("organization".to_string(), "aws".to_string())));
    assert_eq!(split_tag("a="), Some(("a".to_string(), String::new())));
    assert_eq!(split_tag("lambda"), None);
}

#[test]
fn output_format_parses_in_any_case() {
    assert_eq!(OutputFormat::parse("json"), Some(OutputFormat::Json));
    assert_eq!(OutputFormat::parse("JSON"), Some(OutputFormat::Json));
    assert_eq!(OutputFormat::parse("Text"), Some(OutputFormat::Text));
    assert_eq!(OutputFormat::parse("tExT"), Some(OutputFormat::Text));
    assert_eq!(OutputFormat::parse("yaml"), None);
    assert_eq!(OutputFormat::parse("jsonx"), None);
    assert_eq!(OutputFormat::Json.name(), "Json");
    assert_eq!(OutputFormat::Text.name(), "Text");
}

#[test]
fn deploy_retry_policy_is_adaptive_three_attempts_five_seconds() {
    let p = RetryPolicy::for_deploy();
    assert_eq!(p.mode, RetryStrategy::Adaptive);
    assert_eq!(p.max_attempts, 3);
    assert_eq!(p.initial_backoff_secs, 5);
    let c = p.to_retry_config();
    assert_eq!(c.mode(), RetryMode::Adaptive);
    assert_eq!(c.max_attempts(), 3);
    assert_eq!(c.initial_backoff(), Duration::from_secs(5));
}

#[test]
fn standard_retry_policy_converts_as_given() {
    let p = RetryPolicy { mode: RetryStrategy::Standard, max_attempts: 7, initial_backoff_secs: 2 };
    let c = p.to_retry_config();
    assert_eq!(c.mode(), RetryMode::Standard);
    assert_eq!(c.max_attempts(), 7);
    assert_eq!(c.initial_backoff(), Duration::from_secs(2));
}
