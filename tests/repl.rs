use gibberish::repl::{
    classify_line, clock_text, current_timestamp_hms, parse_prefixed_arg, parse_prefixed_command,
    repl_prompt, LineAction, PrefixedCommand,
};

#[test]
fn parses_raw_with_tab_separated_payload() {
    let parsed = parse_prefixed_command(":raw\t\\x03");
    assert_eq!(parsed, Some(PrefixedCommand::Raw("\\x03".to_string())));
}

#[test]
fn rejects_non_separated_prefix() {
    assert_eq!(parse_prefixed_command(":run echo hi"), None);
    assert_eq!(parse_prefixed_command(":raw\\x03"), None);
}

#[test]
fn keeps_empty_payload_for_usage_errors() {
    assert_eq!(
        parse_prefixed_command(":raw"),
        Some(PrefixedCommand::Raw(String::new()))
    );
}

#[test]
fn current_timestamp_has_hms_shape() {
    let ts = current_timestamp_hms();
    assert_eq!(ts.len(), 8);
    assert_eq!(ts.as_bytes()[2], b':');
    assert_eq!(ts.as_bytes()[5], b':');
}

#[test]
fn strips_leading_whitespace_of_argument() {
    assert_eq!(
        parse_prefixed_arg(":raw   ls ", ":raw"),
        Some("ls ".to_string())
    );
    assert_eq!(parse_prefixed_arg(":ra", ":raw"), None);
}

#[test]
fn classifies_lines() {
    let line = classify_line(":quit\r\n");
    assert_eq!(line.text, ":quit");
    assert_eq!(line.action, LineAction::Quit);
    assert_eq!(classify_line(":q").action, LineAction::Quit);
    assert_eq!(classify_line("\n").action, LineAction::Skip);
    assert_eq!(classify_line(":help").action, LineAction::Help);
    assert_eq!(classify_line(":snap\n").action, LineAction::Snapshot);
    assert_eq!(classify_line(":reset").action, LineAction::Reset);
    assert_eq!(
        classify_line(":raw ls\\n\n").action,
        LineAction::Raw("ls\\n".to_string())
    );
    assert_eq!(classify_line(":bogus").action, LineAction::UnknownCommand);
    assert_eq!(classify_line("list files").action, LineAction::Prompt);
    assert_eq!(classify_line(" :quit").action, LineAction::Prompt);
}

#[test]
fn builds_the_prompt() {
    assert_eq!(repl_prompt("12:03:04", None), "*12:03:04* **n/a** ❯ ");
    assert_eq!(repl_prompt("12:03:04", Some(1520)), "*12:03:04* **1520** ❯ ");
    assert_eq!(clock_text(9, 5, 0), "09:05:00");
    assert_eq!(clock_text(23, 59, 59), "23:59:59");
}
