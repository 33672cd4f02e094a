//! A transcript of a session (what the user typed, the tool calls with the
//! screens they returned, the assistant's answers) rendered as one HTML page.

use vstd::prelude::*;

use crate::text::{decimal, push_char, push_decimal, to_chars};

verus! {

/// The fixed start of the page, up to its title heading.
pub const HTML_HEAD: &'static str = "<!doctype html>\n<html lang=\"en\">\n<head>\n  <meta charset=\"utf-8\">\n  <meta name=\"viewport\" content=\"width=device-width, initial-scale=1\">\n  <title>gibberish session capture</title>\n  <link rel=\"icon\" href=\"data:image/svg+xml,<svg xmlns='http://www.w3.org/2000/svg' viewBox='0 0 100 100'><text y='.9em' font-size='90'>\u{1FAB5}</text></svg>\" />\n  <style>\n    :root { color-scheme: light dark; }\n    body { margin: 0; font-family: ui-sans-serif, -apple-system, BlinkMacSystemFont, Segoe UI, sans-serif; background: #f7f7f8; color: #1f2328; }\n    .container { max-width: 1100px; margin: 0 auto; padding: 1.5rem 1rem 2rem; }\n    .summary { background: #ffffff; border: 1px solid #d0d7de; border-radius: 10px; padding: 1rem; margin-bottom: 1rem; }\n    .summary h1 { margin: 0 0 0.6rem; font-size: 1.2rem; }\n    .summary p { margin: 0.2rem 0; }\n    .event { background: #ffffff; border: 1px solid #d0d7de; border-left-width: 6px; border-radius: 10px; margin: 0 0 1rem; padding: 0.8rem 1rem 1rem; }\n    .event.user { border-left-color: #0a7c3e; }\n    .event.tool { border-left-color: #0969da; }\n    .event.assistant { border-left-color: #8250df; }\n    .event h2 { margin: 0; font-size: 1rem; }\n    .meta { margin-top: 0.2rem; color: #59636e; font-size: 0.85rem; }\n    .label { font-weight: 600; margin: 0.8rem 0 0.3rem; display: block; }\n    pre { margin: 0; border: 1px solid #d0d7de; border-radius: 8px; padding: 0.75rem; overflow-x: auto; white-space: pre-wrap; background: #f6f8fa; font-family: SFMono-Regular, Menlo, Consolas, monospace; font-size: 0.85rem; line-height: 1.45; }\n    .assistant-body { border: 1px solid #d0d7de; border-radius: 8px; padding: 0.75rem 0.9rem; background: #ffffff; }\n    .assistant-body > :first-child { margin-top: 0; }\n    .assistant-body > :last-child { margin-bottom: 0; }\n  </style>\n</head>\n<body>\n  <main class=\"container\">\n    <section class=\"summary\">\n      <h1>gibberish session capture</h1>\n";

/// The fixed end of the page.
pub const HTML_TAIL: &'static str = "  </main>\n</body>\n</html>\n";

/// The HTML that the markdown renderer makes of a text.
pub uninterp spec fn markdown_html(s: Seq<char>) -> Seq<char>;

/// Relies on `markdown::to_html`: CommonMark rendered with the default options,
/// which never fails; the page depends on the text alone.
#[verifier::external_body]
fn markdown_to_html(markdown: &str) -> (r: String)
    ensures
        r@ == markdown_html(markdown@),
{
    markdown::to_html(markdown)
}

/// Relies on `time::OffsetDateTime`: the time now, in the local offset where it
/// can be found and in UTC otherwise, in its display form. Nothing is known of it.
#[verifier::external_body]
fn now_timestamp() -> String {
    match time::OffsetDateTime::now_local() {
        Ok(t) => t.to_string(),
        Err(_) => time::OffsetDateTime::now_utc().to_string(),
    }
}

/// How one character is written in HTML text: `&`, `<`, `>`, `'` and `"` as
/// entities, every other character as it is.
pub open spec fn html_escaped_char(c: char) -> Seq<char> {
    if c == '&' {
        "&amp;"@
    } else if c == '<' {
        "&lt;"@
    } else if c == '>' {
        "&gt;"@
    } else if c == '\'' {
        "&#39;"@
    } else if c == '"' {
        "&quot;"@
    } else {
        seq![c]
    }
}

/// A text written as HTML text.
pub open spec fn html_escaped(s: Seq<char>) -> Seq<char>
    decreases s.len(),
{
    if s.len() == 0 {
        Seq::empty()
    } else {
        html_escaped(s.drop_last()) + html_escaped_char(s.last())
    }
}

/// Appends `ch` written as HTML text.
pub fn push_escaped_char(out: &mut String, ch: char)
    ensures
        final(out)@ == old(out)@ + html_escaped_char(ch),
{
    if ch == '&' {
        out.append("&amp;");
    } else if ch == '<' {
        out.append("&lt;");
    } else if ch == '>' {
        out.append("&gt;");
    } else if ch == '\'' {
        out.append("&#39;");
    } else if ch == '"' {
        out.append("&quot;");
    } else {
        push_char(out, ch);
    }
}

/// `input` written as HTML text.
pub fn escape_html(input: &str) -> (r: String)
    ensures
        r@ == html_escaped(input@),
{
    let chars = to_chars(input);
    let mut escaped = String::new();
    for i in 0..chars.len()
        invariant
            chars@ == input@,
            escaped@ == html_escaped(chars@.subrange(0, i as int)),
    {
        push_escaped_char(&mut escaped, chars[i]);
        assert(chars@.subrange(0, i + 1).drop_last() =~= chars@.subrange(0, i as int));
    }
    assert(chars@.subrange(0, chars@.len() as int) =~= chars@);
    escaped
}

/// One entry of the transcript.
#[derive(Debug, Clone)]
pub enum SessionEvent {
    /// A line that the user typed.
    UserInput { timestamp: String, text: String },
    /// A tool call: the tool, its parameters as JSON, the screen it returned.
    ToolCall { timestamp: String, tool_name: String, params_json: String, snapshot: String },
    /// An answer of the assistant, in Markdown.
    AssistantResponse { timestamp: String, markdown: String },
}

/// The section of the page for the event numbered `number`.
pub open spec fn event_html(e: SessionEvent, number: nat) -> Seq<char> {
    match e {
        SessionEvent::UserInput { timestamp, text } => "    <section class=\"event user\">\n"@
            + "      <h2>#"@ + decimal(number) + " User Input</h2>\n"@
            + "      <div class=\"meta\">"@ + html_escaped(timestamp@) + "</div>\n"@
            + "      <span class=\"label\">Command</span>\n"@ + "      <pre>"@ + html_escaped(
            text@,
        ) + "</pre>\n"@ + "    </section>\n"@,
        SessionEvent::ToolCall { timestamp, tool_name, params_json, snapshot } =>
            "    <section class=\"event tool\">\n"@ + "      <h2>#"@ + decimal(number)
            + " Tool Call: "@ + html_escaped(tool_name@) + "</h2>\n"@
            + "      <div class=\"meta\">"@ + html_escaped(timestamp@) + "</div>\n"@
            + "      <span class=\"label\">Parameters</span>\n"@ + "      <pre>"@ + html_escaped(
            params_json@,
        ) + "</pre>\n"@ + "      <span class=\"label\">Tool Response Snapshot</span>\n"@
            + "      <pre>"@ + html_escaped(snapshot@) + "</pre>\n"@ + "    </section>\n"@,
        SessionEvent::AssistantResponse { timestamp, markdown } =>
            "    <section class=\"event assistant\">\n"@ + "      <h2>#"@ + decimal(number)
            + " Assistant Response</h2>\n"@ + "      <div class=\"meta\">"@ + html_escaped(
            timestamp@,
        ) + "</div>\n"@ + "      <span class=\"label\">Rendered Markdown</span>\n"@
            + "      <div class=\"assistant-body\">"@ + markdown_html(markdown@) + "</div>\n"@
            + "    </section>\n"@,
    }
}

/// The sections of the events, numbered from one.
pub open spec fn events_html(events: Seq<SessionEvent>) -> Seq<char>
    decreases events.len(),
{
    if events.len() == 0 {
        Seq::empty()
    } else {
        events_html(events.drop_last()) + event_html(events.last(), events.len())
    }
}

/// How many events of each kind: user inputs, tool calls, assistant answers.
pub open spec fn event_counts(events: Seq<SessionEvent>) -> (nat, nat, nat)
    decreases events.len(),
{
    if events.len() == 0 {
        (0, 0, 0)
    } else {
        let (u, t, a) = event_counts(events.drop_last());
        match events.last() {
            SessionEvent::UserInput { .. } => (u + 1, t, a),
            SessionEvent::ToolCall { .. } => (u, t + 1, a),
            SessionEvent::AssistantResponse { .. } => (u, t, a + 1),
        }
    }
}

/// The summary at the top of the page: start, time of rendering, counts.
pub open spec fn summary_html(started_at: Seq<char>, now: Seq<char>, events: Seq<SessionEvent>) -> Seq<char> {
    let (u, t, a) = event_counts(events);
    "      <p><strong>Started:</strong> "@ + html_escaped(started_at) + "</p>\n"@
        + "      <p><strong>Generated:</strong> "@ + html_escaped(now) + "</p>\n"@
        + "      <p><strong>User inputs:</strong> "@ + decimal(u)
        + " | <strong>Tool calls:</strong> "@ + decimal(t)
        + " | <strong>Assistant responses:</strong> "@ + decimal(a) + "</p>\n"@
        + "    </section>\n"@
}

/// The whole page.
pub open spec fn capture_page(started_at: Seq<char>, now: Seq<char>, events: Seq<SessionEvent>) -> Seq<char> {
    HTML_HEAD@ + summary_html(started_at, now, events) + events_html(events) + HTML_TAIL@
}

/// How many events of each kind: user inputs, tool calls, assistant answers.
fn count_events(events: &Vec<SessionEvent>) -> (r: (usize, usize, usize))
    ensures
        event_counts(events@) == (r.0 as nat, r.1 as nat, r.2 as nat),
{
    let mut user_inputs: usize = 0;
    let mut tool_calls: usize = 0;
    let mut assistant_responses: usize = 0;
    for i in 0..events.len()
        invariant
            event_counts(events@.subrange(0, i as int)) == (
                user_inputs as nat,
                tool_calls as nat,
                assistant_responses as nat,
            ),
            user_inputs + tool_calls + assistant_responses == i,
    {
        assert(events@.subrange(0, i + 1).drop_last() =~= events@.subrange(0, i as int));
        match &events[i] {
            SessionEvent::UserInput { .. } => user_inputs = user_inputs + 1,
            SessionEvent::ToolCall { .. } => tool_calls = tool_calls + 1,
            SessionEvent::AssistantResponse { .. } => assistant_responses = assistant_responses + 1,
        }
    }
    assert(events@.subrange(0, events@.len() as int) =~= events@);
    (user_inputs, tool_calls, assistant_responses)
}

/// Appends the summary for the given start, time of rendering and counts.
fn push_summary(out: &mut String, started_at: &str, now: &str, counts: (usize, usize, usize))
    ensures
        final(out)@ == old(out)@ + "      <p><strong>Started:</strong> "@ + html_escaped(started_at@)
            + "</p>\n"@ + "      <p><strong>Generated:</strong> "@ + html_escaped(now@) + "</p>\n"@
            + "      <p><strong>User inputs:</strong> "@ + decimal(counts.0 as nat)
            + " | <strong>Tool calls:</strong> "@ + decimal(counts.1 as nat)
            + " | <strong>Assistant responses:</strong> "@ + decimal(counts.2 as nat) + "</p>\n"@
            + "    </section>\n"@,
{
    out.append("      <p><strong>Started:</strong> ");
    out.append(escape_html(started_at).as_str());
    out.append("</p>\n");
    out.append("      <p><strong>Generated:</strong> ");
    out.append(escape_html(now).as_str());
    out.append("</p>\n");
    out.append("      <p><strong>User inputs:</strong> ");
    push_decimal(out, counts.0 as u64);
    out.append(" | <strong>Tool calls:</strong> ");
    push_decimal(out, counts.1 as u64);
    out.append(" | <strong>Assistant responses:</strong> ");
    push_decimal(out, counts.2 as u64);
    out.append("</p>\n");
    out.append("    </section>\n");
    assert(out@ =~= old(out)@ + "      <p><strong>Started:</strong> "@ + html_escaped(started_at@)
            + "</p>\n"@ + "      <p><strong>Generated:</strong> "@ + html_escaped(now@) + "</p>\n"@
            + "      <p><strong>User inputs:</strong> "@ + decimal(counts.0 as nat)
            + " | <strong>Tool calls:</strong> "@ + decimal(counts.1 as nat)
            + " | <strong>Assistant responses:</strong> "@ + decimal(counts.2 as nat) + "</p>\n"@
            + "    </section>\n"@);
}

/// Appends the section of `event`, numbered `number`.
fn push_event_html(out: &mut String, event: &SessionEvent, number: usize)
    ensures
        final(out)@ == old(out)@ + event_html(*event, number as nat),
{
    match event {
        SessionEvent::UserInput { timestamp, text } => {
            out.append("    <section class=\"event user\">\n");
            out.append("      <h2>#");
            push_decimal(out, number as u64);
            out.append(" User Input</h2>\n");
            out.append("      <div class=\"meta\">");
            out.append(escape_html(timestamp.as_str()).as_str());
            out.append("</div>\n");
            out.append("      <span class=\"label\">Command</span>\n");
            out.append("      <pre>");
            out.append(escape_html(text.as_str()).as_str());
            out.append("</pre>\n");
            out.append("    </section>\n");
        },
        SessionEvent::ToolCall { timestamp, tool_name, params_json, snapshot } => {
            out.append("    <section class=\"event tool\">\n");
            out.append("      <h2>#");
            push_decimal(out, number as u64);
            out.append(" Tool Call: ");
            out.append(escape_html(tool_name.as_str()).as_str());
            out.append("</h2>\n");
            out.append("      <div class=\"meta\">");
            out.append(escape_html(timestamp.as_str()).as_str());
            out.append("</div>\n");
            out.append("      <span class=\"label\">Parameters</span>\n");
            out.append("      <pre>");
            out.append(escape_html(params_json.as_str()).as_str());
            out.append("</pre>\n");
            out.append("      <span class=\"label\">Tool Response Snapshot</span>\n");
            out.append("      <pre>");
            out.append(escape_html(snapshot.as_str()).as_str());
            out.append("</pre>\n");
            out.append("    </section>\n");
        },
        SessionEvent::AssistantResponse { timestamp, markdown } => {
            out.append("    <section class=\"event assistant\">\n");
            out.append("      <h2>#");
            push_decimal(out, number as u64);
            out.append(" Assistant Response</h2>\n");
            out.append("      <div class=\"meta\">");
            out.append(escape_html(timestamp.as_str()).as_str());
            out.append("</div>\n");
            out.append("      <span class=\"label\">Rendered Markdown</span>\n");
            out.append("      <div class=\"assistant-body\">");
            out.append(markdown_to_html(markdown.as_str()).as_str());
            out.append("</div>\n");
            out.append("    </section>\n");
        },
    }
    assert(out@ =~= old(out)@ + event_html(*event, number as nat));
}

/// The record of a session, kept in the order in which things happened.
#[derive(Debug, Clone)]
pub struct SessionCapture {
    started_at: String,
    events: Vec<SessionEvent>,
}

impl SessionCapture {
    /// When the capture was started, as text.
    pub closed spec fn started_at_view(&self) -> Seq<char> {
        self.started_at@
    }

    /// The events recorded so far, oldest first.
    pub closed spec fn events_view(&self) -> Seq<SessionEvent> {
        self.events@
    }

    /// A capture started now, with no events.
    pub fn new() -> (r: Self)
        ensures
            r.events_view().len() == 0,
    {
        Self::started_at(now_timestamp())
    }

    /// A capture whose start is given, with no events.
    pub fn started_at(started_at: String) -> (r: Self)
        ensures
            r.started_at_view() == started_at@,
            r.events_view().len() == 0,
    {
        SessionCapture { started_at, events: Vec::new() }
    }

    /// Records `event` after the others.
    pub fn push_event(&mut self, event: SessionEvent)
        ensures
            final(self).events_view() == old(self).events_view().push(event),
            final(self).started_at_view() == old(self).started_at_view(),
    {
        self.events.push(event);
    }

    /// Records a line that the user typed, stamped with the time now.
    pub fn record_user_input(&mut self, text: &str)
        ensures
            final(self).started_at_view() == old(self).started_at_view(),
            final(self).events_view().len() == old(self).events_view().len() + 1,
            final(self).events_view().drop_last() == old(self).events_view(),
            match final(self).events_view().last() {
                SessionEvent::UserInput { text: t, .. } => t@ == text@,
                _ => false,
            },
    {
        let timestamp = now_timestamp();
        self.push_event(SessionEvent::UserInput { timestamp, text: String::from_str(text) });
    }

    /// Records a tool call: the tool's name, its parameters already written as
    /// JSON, and the screen it returned; stamped with the time now.
    pub fn record_tool_call(&mut self, tool_name: &str, params_json: &str, snapshot: &str)
        ensures
            final(self).started_at_view() == old(self).started_at_view(),
            final(self).events_view().len() == old(self).events_view().len() + 1,
            final(self).events_view().drop_last() == old(self).events_view(),
            match final(self).events_view().last() {
                SessionEvent::ToolCall { tool_name: n, params_json: p, snapshot: s, .. } => n@
                    == tool_name@ && p@ == params_json@ && s@ == snapshot@,
                _ => false,
            },
    {
        let timestamp = now_timestamp();
        self.push_event(
            SessionEvent::ToolCall {
                timestamp,
                tool_name: String::from_str(tool_name),
                params_json: String::from_str(params_json),
                snapshot: String::from_str(snapshot),
            },
        );
    }

    /// Records an answer of the assistant, stamped with the time now.
    pub fn record_assistant_response(&mut self, markdown: &str)
        ensures
            final(self).started_at_view() == old(self).started_at_view(),
            final(self).events_view().len() == old(self).events_view().len() + 1,
            final(self).events_view().drop_last() == old(self).events_view(),
            match final(self).events_view().last() {
                SessionEvent::AssistantResponse { markdown: m, .. } => m@ == markdown@,
                _ => false,
            },
    {
        let timestamp = now_timestamp();
        self.push_event(
            SessionEvent::AssistantResponse { timestamp, markdown: String::from_str(markdown) },
        );
    }

    /// The page, stamped as generated now (see [`SessionCapture::render_html_at`]).
    pub fn render_html(&self) -> (r: String)
        ensures
            exists|now: Seq<char>| r@ == capture_page(self.started_at_view(), now, self.events_view()),
    {
        let now = now_timestamp();
        let r = self.render_html_at(now.as_str());
        assert(r@ == capture_page(self.started_at_view(), now@, self.events_view()));
        r
    }

    /// The page, stamped as generated at `now`: the fixed head, a summary with
    /// the start, `now` and the count of each kind of event, then one numbered
    /// section per event in order, then the fixed end.
    pub fn render_html_at(&self, now: &str) -> (r: String)
        ensures
            r@ == capture_page(self.started_at_view(), now@, self.events_view()),
    {
        let ghost events = self.events@;
        let counts = count_events(&self.events);
        let mut out = String::new();
        out.append(HTML_HEAD);
        push_summary(
            &mut out,
            self.started_at.as_str(),
            now,
            counts,
        );
        let ghost head = out@;
        assert(head =~= HTML_HEAD@ + summary_html(self.started_at@, now@, events));

        for i in 0..self.events.len()
            invariant
                events == self.events@,
                out@ == head + events_html(events.subrange(0, i as int)),
        {
            push_event_html(&mut out, &self.events[i], i + 1);
            assert(events.subrange(0, i + 1).drop_last() =~= events.subrange(0, i as int));
            assert(out@ =~= head + events_html(events.subrange(0, i + 1)));
        }
        assert(events.subrange(0, events.len() as int) =~= events);
        out.append(HTML_TAIL);
        out
    }
}

} // verus!
