use gibberish::capture::{escape_html, SessionCapture, SessionEvent};

fn params_json(spec: &str, wait: f64) -> String {
    let mut map = serde_json::Map::new();
    map.insert("str".to_string(), serde_json::Value::String(spec.to_string()));
    map.insert("float".to_string(), serde_json::Value::from(wait));
    serde_json::to_string_pretty(&serde_json::Value::Object(map)).expect("serialize params")
}

#[test]
fn renders_full_capture_html() {
    let mut capture = SessionCapture::new();
    capture.record_user_input(":raw ls\\n");
    capture.record_tool_call(
        "raw_input",
        &params_json("ls", 0.4),
        "output line\nCursor info: row=0, col=0, char=\"o\"",
    );
    capture.record_assistant_response("**Done**\n\n`ls` returned output.");

    let html = capture.render_html();
    assert!(html.contains("User Input"));
    assert!(html.contains("Tool Call: raw_input"));
    assert!(html.contains("Tool Response Snapshot"));
    assert!(html.contains("<strong>Done</strong>"));
    assert!(html.contains("<code>ls</code>"));
}

#[test]
fn escapes_user_and_snapshot_content() {
    let mut capture = SessionCapture::new();
    capture.record_user_input("echo <unsafe>");
    capture.record_tool_call("raw_input", &params_json("<x>", 0.1), "<snap>");

    let html = capture.render_html();
    assert!(html.contains("echo &lt;unsafe&gt;"));
    assert!(html.contains("&lt;snap&gt;"));
}

#[test]
fn renders_headings_lists_and_links() {
    let mut capture = SessionCapture::new();
    capture.record_assistant_response(
        "# Title\n\n- one\n- two\n\nUse [docs](https://example.com).",
    );

    let html = capture.render_html();
    assert!(html.contains("<h1>Title</h1>"));
    assert!(html.contains("<ul>"));
    assert!(html.contains("<li>one</li>"));
    assert!(html.contains("<a href=\"https://example.com\">docs</a>"));
}

#[test]
fn escapes_html_special_characters() {
    assert_eq!(escape_html("a&b<c>'d\"é"), "a&amp;b&lt;c&gt;&#39;d&quot;é");
    assert_eq!(escape_html(""), "");
}

#[test]
fn renders_counts_and_numbered_sections() {
    let mut capture = SessionCapture::started_at("start<1>".to_string());
    capture.push_event(SessionEvent::UserInput {
        timestamp: "t1".to_string(),
        text: "hi".to_string(),
    });
    capture.push_event(SessionEvent::UserInput {
        timestamp: "t2".to_string(),
        text: "again".to_string(),
    });
    capture.push_event(SessionEvent::AssistantResponse {
        timestamp: "t3".to_string(),
        markdown: "plain".to_string(),
    });
    let html = capture.render_html_at("now&then");
    assert!(html.starts_with("<!doctype html>\n"));
    assert!(html.ends_with("  </main>\n</body>\n</html>\n"));
    assert!(html.contains("      <p><strong>Started:</strong> start&lt;1&gt;</p>\n"));
    assert!(html.contains("      <p><strong>Generated:</strong> now&amp;then</p>\n"));
    assert!(html.contains(
        "<strong>User inputs:</strong> 2 | <strong>Tool calls:</strong> 0 | <strong>Assistant responses:</strong> 1</p>"
    ));
    assert!(html.contains("      <h2>#1 User Input</h2>\n      <div class=\"meta\">t1</div>\n"));
    assert!(html.contains("      <h2>#2 User Input</h2>\n"));
    assert!(html.contains("      <h2>#3 Assistant Response</h2>\n"));
    assert!(html.contains("<div class=\"assistant-body\"><p>plain</p></div>\n"));
}
