use ntfy_push::{
    build_request, join_lines, prepare, resolve_message, resolve_title, summary_line, Config,
    InputSource, NotificationRequest, NotifyError, NtfyPriority,
};

fn s(x: &str) -> String {
    x.to_string()
}

fn header_pairs(r: &NotificationRequest) -> Vec<(String, String)> {
    r.headers.iter().map(|h| (h.name.clone(), h.value.clone())).collect()
}

fn config(message: Option<&str>, title: Option<&str>, priority: NtfyPriority, tags: &str) -> Config {
    Config {
        title: title.map(s),
        message: message.map(s),
        endpoint: s("https://ntfy.sh/test"),
        priority,
        tags: s(tags),
    }
}

#[test]
fn priority_names_are_lowercase() {
    assert_eq!(NtfyPriority::Min.name(), "min");
    assert_eq!(NtfyPriority::Low.name(), "low");
    assert_eq!(NtfyPriority::Default.name(), "default");
    assert_eq!(NtfyPriority::High.name(), "high");
    assert_eq!(NtfyPriority::Max.name(), "max");
}

#[test]
fn default_title_for_every_priority() {
    assert_eq!(resolve_title(&None, NtfyPriority::Min), "New min priority notification");
    assert_eq!(resolve_title(&None, NtfyPriority::Low), "New low priority notification");
    assert_eq!(resolve_title(&None, NtfyPriority::Default), "New default priority notification");
    assert_eq!(resolve_title(&None, NtfyPriority::High), "New high priority notification");
    assert_eq!(resolve_title(&None, NtfyPriority::Max), "New max priority notification");
}

#[test]
fn explicit_title_is_kept() {
    assert_eq!(resolve_title(&Some(s("Disk full")), NtfyPriority::Max), "Disk full");
    assert_eq!(resolve_title(&Some(s("")), NtfyPriority::Low), "");
}

#[test]
fn round_trip_high_priority_request() {
    let r = build_request(&s("https://ntfy.sh/test"), s("hello"), &None, NtfyPriority::High, &s("a,b"));
    assert_eq!(r.endpoint, "https://ntfy.sh/test");
    assert_eq!(r.body, "hello");
    assert_eq!(
        header_pairs(&r),
        vec![
            (s("Priority"), s("high")),
            (s("Title"), s("New high priority notification")),
            (s("Tags"), s("a,b")),
        ]
    );
}

#[test]
fn terminal_with_message_flag() {
    let out = prepare(&config(Some("hi"), None, NtfyPriority::Default, ""), &InputSource::Terminal).unwrap();
    assert_eq!(out.request.body, "hi");
    assert_eq!(
        header_pairs(&out.request),
        vec![
            (s("Priority"), s("default")),
            (s("Title"), s("New default priority notification")),
            (s("Tags"), s("")),
        ]
    );
    assert_eq!(out.summary, "Sending hi to https://ntfy.sh/test with priority default");
}

#[test]
fn piped_lines_joined_without_separator() {
    let lines = vec![s("line1"), s("line2")];
    assert_eq!(join_lines(&lines), "line1line2");
    let out = prepare(
        &config(Some("ignored"), None, NtfyPriority::Default, ""),
        &InputSource::Piped(lines),
    )
    .unwrap();
    assert_eq!(out.request.body, "line1line2");
}

#[test]
fn piped_input_overrides_flag() {
    let r = resolve_message(&InputSource::Piped(vec![s("a"), s("b"), s("c")]), &Some(s("flag")));
    assert_eq!(r, Ok(s("abc")));
}

#[test]
fn empty_piped_input_gives_empty_message() {
    assert_eq!(join_lines(&vec![]), "");
    let r = resolve_message(&InputSource::Piped(vec![]), &None);
    assert_eq!(r, Ok(s("")));
}

#[test]
fn terminal_takes_flag_exactly() {
    let r = resolve_message(&InputSource::Terminal, &Some(s("  spaced\tvalue ")));
    assert_eq!(r, Ok(s("  spaced\tvalue ")));
}

#[test]
fn terminal_without_message_fails() {
    assert_eq!(resolve_message(&InputSource::Terminal, &None), Err(NotifyError::MissingMessage));
    let r = prepare(&config(None, Some("t"), NtfyPriority::Max, "x"), &InputSource::Terminal);
    assert!(matches!(r, Err(NotifyError::MissingMessage)));
}

#[test]
fn tags_passed_verbatim() {
    let out = prepare(
        &config(Some("m"), Some("Backup"), NtfyPriority::Low, "warning, skull ,,x"),
        &InputSource::Terminal,
    )
    .unwrap();
    assert_eq!(
        header_pairs(&out.request),
        vec![
            (s("Priority"), s("low")),
            (s("Title"), s("Backup")),
            (s("Tags"), s("warning, skull ,,x")),
        ]
    );
}

#[test]
fn summary_reports_endpoint_message_priority() {
    assert_eq!(
        summary_line(&s("http://localhost/alerts"), &s("disk at 95%"), NtfyPriority::Max),
        "Sending disk at 95% to http://localhost/alerts with priority max"
    );
}
