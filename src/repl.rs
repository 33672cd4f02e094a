//! The decisions of the interactive loop: what a typed line asks for, the
//! `:raw` command's argument, and the prompt shown before each line.

use vstd::prelude::*;

use crate::config::SkinMode;
use crate::text::{
    decimal, digit_char, digit_to_char, is_white_space, is_white_space_char, push_char,
    push_chars, push_decimal, to_chars, trim_start_from, trim_start_ws,
};

verus! {

/// What the interactive loop was started with.
pub struct ReplOptions<'a> {
    pub wait_ms: u64,
    pub initial_prompt: &'a str,
    pub skin_mode: SkinMode,
    pub verbose: u8,
    pub api_key: &'a str,
    pub yolo: bool,
}

/// The assistant's answer to a prompt, and the tokens the exchange used.
pub struct AgentPromptResponse {
    pub output: String,
    pub total_tokens: u64,
}

/// A command line that starts with a colon and takes an argument.
#[derive(Debug, Clone, PartialEq, Eq)]
pub enum PrefixedCommand {
    /// `:raw <spec>`: send the bytes that the escaped specification stands for.
    Raw(String),
}

/// The argument of `line` as a command `prefix`: empty when the line is the
/// prefix alone; otherwise the prefix must be followed by whitespace, and the
/// argument is the rest without its leading whitespace.
pub open spec fn prefixed_arg(line: Seq<char>, prefix: Seq<char>) -> Option<Seq<char>> {
    if line == prefix {
        Some(Seq::empty())
    } else if line.len() >= prefix.len() && line.subrange(0, prefix.len() as int) == prefix {
        let rest = line.subrange(prefix.len() as int, line.len() as int);
        if rest.len() > 0 && is_white_space(rest[0]) {
            Some(trim_start_ws(rest))
        } else {
            None
        }
    } else {
        None
    }
}

/// The argument of `line` read as the command `prefix` (see [`prefixed_arg`]).
pub fn parse_prefixed_arg(line: &str, prefix: &str) -> (r: Option<String>)
    ensures
        match r {
            Some(a) => prefixed_arg(line@, prefix@) == Some(a@),
            None => prefixed_arg(line@, prefix@) is None,
        },
{
    let l = to_chars(line);
    let p = to_chars(prefix);
    if l.len() < p.len() {
        return None;
    }
    let mut i: usize = 0;
    while i < p.len()
        invariant
            l@ == line@,
            p@ == prefix@,
            p.len() <= l.len(),
            i <= p.len(),
            l@.subrange(0, i as int) == p@.subrange(0, i as int),
        decreases p.len() - i,
    {
        if l[i] != p[i] {
            if l.len() == p.len() {
                assert(l@ != p@) by {
                    assert(l@[i as int] != p@[i as int]);
                }
            }
            return None;
        }
        assert(l@.subrange(0, i + 1) =~= p@.subrange(0, i + 1));
        i = i + 1;
    }
    assert(p@.subrange(0, p.len() as int) =~= p@);
    if l.len() == p.len() {
        assert(l@ =~= p@);
        return Some(String::new());
    }
    assert(l@ != p@);
    let ghost rest = l@.subrange(p.len() as int, l.len() as int);
    assert(rest[0] == l@[p.len() as int]);
    if !is_white_space_char(l[p.len()]) {
        return None;
    }
    let arg = trim_start_from(&l, p.len());
    let mut out = String::new();
    push_chars(&mut out, &arg);
    assert(out@ =~= arg@);
    Some(out)
}

/// Reads `line` as one of the colon commands with an argument.
pub fn parse_prefixed_command(line: &str) -> (r: Option<PrefixedCommand>)
    ensures
        match r {
            Some(PrefixedCommand::Raw(a)) => prefixed_arg(line@, ":raw"@) == Some(a@),
            None => prefixed_arg(line@, ":raw"@) is None,
        },
{
    match parse_prefixed_arg(line, ":raw") {
        Some(a) => Some(PrefixedCommand::Raw(a)),
        None => None,
    }
}

/// What a typed line asks for.
#[derive(Debug, Clone, PartialEq, Eq)]
pub enum LineAction {
    /// Nothing: the line is empty.
    Skip,
    /// Leave the loop (`:quit` or `:q`).
    Quit,
    /// Show the list of commands (`:help`).
    Help,
    /// Show the screen now (`:snap`).
    Snapshot,
    /// Restart the shell and forget the conversation (`:reset`).
    Reset,
    /// Send raw bytes (`:raw <spec>`), with the specification.
    Raw(String),
    /// A colon command that does not exist.
    UnknownCommand,
    /// Anything else goes to the assistant.
    Prompt,
}

/// A typed line without its line ending, and what it asks for.
#[derive(Debug, Clone, PartialEq, Eq)]
pub struct ReplLine {
    /// The line without trailing carriage returns and line feeds; recorded in
    /// the transcript when it is not empty.
    pub text: String,
    pub action: LineAction,
}

/// `s` without its trailing carriage returns and line feeds.
pub open spec fn trim_line_end(s: Seq<char>) -> Seq<char>
    decreases s.len(),
{
    if s.len() > 0 && (s.last() == '\r' || s.last() == '\n') {
        trim_line_end(s.drop_last())
    } else {
        s
    }
}

/// Whether `action` is what the line `t` (already without its line ending) asks for.
pub open spec fn line_action_of(t: Seq<char>, action: LineAction) -> bool {
    if t.len() == 0 {
        action == LineAction::Skip
    } else if t == ":quit"@ || t == ":q"@ {
        action == LineAction::Quit
    } else if t == ":help"@ {
        action == LineAction::Help
    } else if t == ":snap"@ {
        action == LineAction::Snapshot
    } else if t == ":reset"@ {
        action == LineAction::Reset
    } else if t[0] == ':' {
        match prefixed_arg(t, ":raw"@) {
            Some(a) => action matches LineAction::Raw(s) && s@ == a,
            None => action == LineAction::UnknownCommand,
        }
    } else {
        action == LineAction::Prompt
    }
}

/// Reads a typed line: its line ending is dropped; an empty line does nothing;
/// `:quit`, `:q`, `:help`, `:snap`, `:reset` are commands; another line that
/// starts with a colon is `:raw <spec>` or unknown; anything else is a prompt
/// for the assistant.
pub fn classify_line(line: &str) -> (r: ReplLine)
    ensures
        r.text@ == trim_line_end(line@),
        line_action_of(r.text@, r.action),
{
    let mut chars = to_chars(line);
    let mut k = chars.len();
    assert(chars@.subrange(0, k as int) =~= chars@);
    while k > 0 && (chars[k - 1] == '\r' || chars[k - 1] == '\n')
        invariant
            k <= chars.len(),
            chars@ == line@,
            trim_line_end(chars@.subrange(0, k as int)) == trim_line_end(line@),
        decreases k,
    {
        assert(chars@.subrange(0, k as int).drop_last() =~= chars@.subrange(0, k - 1));
        k = k - 1;
    }
    chars.truncate(k);
    let mut text = String::new();
    push_chars(&mut text, &chars);
    assert(text@ =~= trim_line_end(line@));
    let action = if text.as_str().is_empty() {
        LineAction::Skip
    } else if text == String::from_str(":quit") || text == String::from_str(":q") {
        LineAction::Quit
    } else if text == String::from_str(":help") {
        LineAction::Help
    } else if text == String::from_str(":snap") {
        LineAction::Snapshot
    } else if text == String::from_str(":reset") {
        LineAction::Reset
    } else if chars[0] == ':' {
        match parse_prefixed_command(text.as_str()) {
            Some(PrefixedCommand::Raw(spec)) => LineAction::Raw(spec),
            None => LineAction::UnknownCommand,
        }
    } else {
        LineAction::Prompt
    };
    ReplLine { text, action }
}

/// The list of commands shown by `:help`.
pub const HELP_TEXT: &'static str = "commands: :raw <spec> (send escaped bytes), :snap (snapshot now), :reset (restart shell + clear agent state), :quit (exit). every other line is sent to the agent";

/// The prompt shown before each line, in Markdown: the time in italics, the
/// token count of the last answer in bold (`n/a` before any), then an arrow.
pub open spec fn repl_prompt_spec(timestamp: Seq<char>, last_total_tokens: Option<u64>) -> Seq<char> {
    let count = match last_total_tokens {
        Some(t) => decimal(t as nat),
        None => "n/a"@,
    };
    "*"@ + timestamp + "* **"@ + count + "** \u{276F} "@
}

/// The prompt shown before each line (see [`repl_prompt_spec`]).
pub fn repl_prompt(timestamp: &str, last_total_tokens: Option<u64>) -> (r: String)
    ensures
        r@ == repl_prompt_spec(timestamp@, last_total_tokens),
{
    let mut out = String::from_str("*");
    out.append(timestamp);
    out.append("* **");
    match last_total_tokens {
        Some(t) => push_decimal(&mut out, t),
        None => out.append("n/a"),
    }
    out.append("** \u{276F} ");
    out
}

/// A clock field written with two digits.
pub open spec fn two_digits(n: nat) -> Seq<char> {
    seq![digit_char(n / 10), digit_char(n % 10)]
}

/// A time of day as `HH:MM:SS`.
pub open spec fn clock_spec(h: nat, m: nat, s: nat) -> Seq<char> {
    two_digits(h) + seq![':'] + two_digits(m) + seq![':'] + two_digits(s)
}

/// Writes a time of day as `HH:MM:SS`.
pub fn clock_text(hours: u8, minutes: u8, seconds: u8) -> (r: String)
    requires
        hours < 24,
        minutes < 60,
        seconds < 60,
    ensures
        r@ == clock_spec(hours as nat, minutes as nat, seconds as nat),
{
    let mut out = String::new();
    push_char(&mut out, digit_to_char((hours / 10) as u32));
    push_char(&mut out, digit_to_char((hours % 10) as u32));
    push_char(&mut out, ':');
    push_char(&mut out, digit_to_char((minutes / 10) as u32));
    push_char(&mut out, digit_to_char((minutes % 10) as u32));
    push_char(&mut out, ':');
    push_char(&mut out, digit_to_char((seconds / 10) as u32));
    push_char(&mut out, digit_to_char((seconds % 10) as u32));
    assert(out@ =~= clock_spec(hours as nat, minutes as nat, seconds as nat));
    out
}

/// Relies on `time::OffsetDateTime::now_local` (and `now_utc` where the local
/// offset cannot be found) and `Time::as_hms`: the clock's hour, minute and
/// second now, each within its range.
#[verifier::external_body]
fn local_clock() -> (r: (u8, u8, u8))
    ensures
        r.0 < 24,
        r.1 < 60,
        r.2 < 60,
{
    match time::OffsetDateTime::now_local() {
        Ok(t) => t.time().as_hms(),
        Err(_) => time::OffsetDateTime::now_utc().time().as_hms(),
    }
}

/// The time now as `HH:MM:SS`.
pub fn current_timestamp_hms() -> (r: String)
    ensures
        r@.len() == 8,
        r@[2] == ':',
        r@[5] == ':',
        exists|h: nat, m: nat, s: nat| h < 24 && m < 60 && s < 60 && r@ == clock_spec(h, m, s),
{
    let (h, m, s) = local_clock();
    let r = clock_text(h, m, s);
    assert(r@ == clock_spec(h as nat, m as nat, s as nat));
    r
}

} // verus!
