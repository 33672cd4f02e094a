//! The execution gate: what is decided around the injection of raw bytes, and
//! the texts shown to the person who approves it.

use vstd::prelude::*;

use crate::input::{bytes_preview, decode_escapes, decode_terminal_input, render_bytes, DecodeError};
use crate::text::{ascii_lower, to_ascii_lower, trim_chars, trim_ws};

verus! {

/// Whether an answer to the approval prompt approves: `y` or `yes` in any
/// ASCII case, with surrounding whitespace ignored.
pub open spec fn is_approval(answer: Seq<char>) -> bool {
    let t = trim_ws(answer).map_values(|c: char| ascii_lower(c));
    t == seq!['y'] || t == seq!['y', 'e', 's']
}

/// Reads an answer to the approval prompt; anything but `y` or `yes` denies.
pub fn is_affirmative(answer: &str) -> (r: bool)
    ensures
        r == is_approval(answer@),
{
    let t = trim_chars(answer);
    let ghost low = trim_ws(answer@).map_values(|c: char| ascii_lower(c));
    if t.len() == 1 {
        let r = to_ascii_lower(t[0]) == 'y';
        assert(r ==> low =~= seq!['y']);
        assert(low == seq!['y'] ==> low[0] == 'y');
        r
    } else if t.len() == 3 {
        let r = to_ascii_lower(t[0]) == 'y' && to_ascii_lower(t[1]) == 'e' && to_ascii_lower(t[2])
            == 's';
        assert(r ==> low =~= seq!['y', 'e', 's']);
        assert(low =~= seq!['y', 'e', 's'] ==> low[0] == 'y' && low[1] == 'e' && low[2] == 's');
        r
    } else {
        assert(seq!['y'].len() == 1 && seq!['y', 'e', 's'].len() == 3);
        assert(low.len() != 1 && low.len() != 3);
        false
    }
}

/// The notice shown before asking for approval.
pub open spec fn approval_notice_spec(tool_name: Seq<char>, spec: Seq<char>, bytes: Seq<u8>) -> Seq<char> {
    "\napproval required for LLM tool call\ntool: "@ + tool_name + "\ninput: "@ + spec
        + "\nbytes: "@ + bytes_preview(bytes) + "\n"@
}

/// The notice shown before asking for approval: the tool, the specification as
/// given, and a printable preview of the bytes.
pub fn approval_notice(tool_name: &str, spec: &str, bytes: &[u8]) -> (r: String)
    ensures
        r@ == approval_notice_spec(tool_name@, spec@, bytes@),
{
    let mut out = String::new();
    out.append("\napproval required for LLM tool call\ntool: ");
    out.append(tool_name);
    out.append("\ninput: ");
    out.append(spec);
    out.append("\nbytes: ");
    out.append(render_bytes(bytes).as_str());
    out.append("\n");
    out
}

/// The question asked for approval.
pub const APPROVAL_QUESTION: &'static str = "allow sending these bytes to the shell? [y/N]: ";

/// The report of a denied tool call: what was denied, then the screen.
pub open spec fn denial_report_spec(tool_name: Seq<char>, rendered_snapshot: Seq<char>) -> Seq<char> {
    "User denied the `"@ + tool_name + "` tool call. No bytes were sent.\n\n"@ + rendered_snapshot
}

/// The answer to a denied tool call: nothing was sent, and the current screen.
pub fn denial_report(tool_name: &str, rendered_snapshot: &str) -> (r: String)
    ensures
        r@ == denial_report_spec(tool_name@, rendered_snapshot@),
{
    let mut out = String::new();
    out.append("User denied the `");
    out.append(tool_name);
    out.append("` tool call. No bytes were sent.\n\n");
    out.append(rendered_snapshot);
    out
}

/// Why raw input typed by the user was refused.
#[derive(Debug, Clone, Copy, PartialEq, Eq, Structural)]
pub enum RawInputError {
    /// Nothing was given after the command.
    MissingSpec,
    /// The specification is malformed.
    Decode(DecodeError),
}

impl RawInputError {
    /// A sentence that says what is wrong.
    pub fn message(&self) -> (r: String)
        ensures
            r@ == match *self {
                RawInputError::MissingSpec => "usage: :raw <escaped bytes>"@,
                RawInputError::Decode(e) => crate::input::decode_error_text(e),
            },
    {
        match self {
            RawInputError::MissingSpec => String::from_str("usage: :raw <escaped bytes>"),
            RawInputError::Decode(e) => e.message(),
        }
    }
}

/// The bytes that raw input stands for, or why it is refused.
pub open spec fn raw_input_spec(spec: Seq<char>) -> Result<Seq<u8>, RawInputError> {
    if spec.len() == 0 {
        Err(RawInputError::MissingSpec)
    } else {
        match decode_escapes(spec) {
            Ok(b) => Ok(b),
            Err(e) => Err(RawInputError::Decode(e)),
        }
    }
}

/// Checks and decodes raw input typed by the user, before anything is sent: an
/// empty specification is a usage error, a malformed one a decoding error.
pub fn prepare_raw_input(spec: &str) -> (r: Result<Vec<u8>, RawInputError>)
    ensures
        match r {
            Ok(b) => raw_input_spec(spec@) == Ok::<Seq<u8>, RawInputError>(b@),
            Err(e) => raw_input_spec(spec@) == Err::<Seq<u8>, RawInputError>(e),
        },
{
    if spec.is_empty() {
        return Err(RawInputError::MissingSpec);
    }
    match decode_terminal_input(spec) {
        Ok(b) => Ok(b),
        Err(e) => Err(RawInputError::Decode(e)),
    }
}

/// Where one caller of the execution gate stands.
pub enum GatePhase {
    /// Waiting for the token.
    Waiting,
    /// Holding the token, with this many of its chunks of bytes sent.
    Holding(nat),
    /// Done: its bytes were sent, its wait and snapshot are over, the token is back.
    Done,
}

/// Two callers, `first` and `second`, that share one gate, and the input
/// stream that the terminal received.
pub struct GateRun {
    /// Which caller holds the token: `Some(true)` the first, `Some(false)` the second.
    pub holder: Option<bool>,
    pub first: GatePhase,
    pub second: GatePhase,
    pub stream: Seq<u8>,
}

/// Chunks of bytes laid end to end.
pub open spec fn joined(chunks: Seq<Seq<u8>>) -> Seq<u8>
    decreases chunks.len(),
{
    if chunks.len() == 0 {
        Seq::empty()
    } else {
        joined(chunks.drop_last()) + chunks.last()
    }
}

/// Nobody holds the token and nothing was sent.
pub open spec fn gate_start() -> GateRun {
    GateRun { holder: None, first: GatePhase::Waiting, second: GatePhase::Waiting, stream: Seq::empty() }
}

/// One step of a caller under the execution gate's discipline: a waiting caller takes the
/// token when it is free and otherwise keeps waiting; a holder sends its next
/// chunk, or, when all are sent, gives the token back; a caller that is done
/// does nothing. `first_chunks` and `second_chunks` are the bytes each sends,
/// in the pieces in which they reach the terminal.
pub open spec fn gate_step(
    run: GateRun,
    by_first: bool,
    first_chunks: Seq<Seq<u8>>,
    second_chunks: Seq<Seq<u8>>,
) -> GateRun {
    let phase = if by_first { run.first } else { run.second };
    let chunks = if by_first { first_chunks } else { second_chunks };
    let next = match phase {
        GatePhase::Waiting => if run.holder is None {
            (Some(by_first), GatePhase::Holding(0), run.stream)
        } else {
            (run.holder, GatePhase::Waiting, run.stream)
        },
        GatePhase::Holding(k) => if k < chunks.len() {
            (run.holder, GatePhase::Holding(k + 1), run.stream + chunks[k as int])
        } else {
            (None, GatePhase::Done, run.stream)
        },
        GatePhase::Done => (run.holder, GatePhase::Done, run.stream),
    };
    if by_first {
        GateRun { holder: next.0, first: next.1, second: run.second, stream: next.2 }
    } else {
        GateRun { holder: next.0, first: run.first, second: next.1, stream: next.2 }
    }
}

/// The execution gate after the callers took steps in the order `schedule` gives
/// (`true` for a step of the first caller).
pub open spec fn gate_run(
    schedule: Seq<bool>,
    first_chunks: Seq<Seq<u8>>,
    second_chunks: Seq<Seq<u8>>,
) -> GateRun
    decreases schedule.len(),
{
    if schedule.len() == 0 {
        gate_start()
    } else {
        gate_step(
            gate_run(schedule.drop_last(), first_chunks, second_chunks),
            schedule.last(),
            first_chunks,
            second_chunks,
        )
    }
}

/// What a caller that does not hold the token has contributed to the stream.
pub open spec fn settled(phase: GatePhase, chunks: Seq<Seq<u8>>) -> Seq<u8> {
    if phase is Done {
        joined(chunks)
    } else {
        Seq::empty()
    }
}

/// The state of a caller that does not hold the token.
pub open spec fn idle(phase: GatePhase) -> bool {
    phase is Waiting || phase is Done
}

/// What holds of the execution gate at every moment.
pub open spec fn gate_invariant(run: GateRun, fc: Seq<Seq<u8>>, sc: Seq<Seq<u8>>) -> bool {
    match run.holder {
        None => idle(run.first) && idle(run.second) && if run.first is Done && run.second is Done {
            run.stream == joined(fc) + joined(sc) || run.stream == joined(sc) + joined(fc)
        } else {
            run.stream == settled(run.first, fc) + settled(run.second, sc)
        },
        Some(true) => idle(run.second) && match run.first {
            GatePhase::Holding(k) => k <= fc.len() && run.stream == settled(run.second, sc) + joined(
                fc.subrange(0, k as int),
            ),
            _ => false,
        },
        Some(false) => idle(run.first) && match run.second {
            GatePhase::Holding(k) => k <= sc.len() && run.stream == settled(run.first, fc) + joined(
                sc.subrange(0, k as int),
            ),
            _ => false,
        },
    }
}

/// Sending one more chunk extends what was sent by that chunk.
proof fn lemma_joined_prefix(c: Seq<Seq<u8>>, k: int)
    requires
        0 <= k < c.len(),
    ensures
        joined(c.subrange(0, k + 1)) == joined(c.subrange(0, k)) + c[k],
        joined(c.subrange(0, c.len() as int)) == joined(c),
{
    assert(c.subrange(0, k + 1).drop_last() =~= c.subrange(0, k));
    assert(c.subrange(0, c.len() as int) =~= c);
}

/// Every step keeps the execution gate's invariant.
proof fn lemma_gate_step_keeps_invariant(
    run: GateRun,
    by_first: bool,
    fc: Seq<Seq<u8>>,
    sc: Seq<Seq<u8>>,
)
    requires
        gate_invariant(run, fc, sc),
    ensures
        gate_invariant(gate_step(run, by_first, fc, sc), fc, sc),
{
    let next = gate_step(run, by_first, fc, sc);
    assert(joined(Seq::<Seq<u8>>::empty()) == Seq::<u8>::empty());
    assert(fc.subrange(0, 0) =~= Seq::<Seq<u8>>::empty());
    assert(sc.subrange(0, 0) =~= Seq::<Seq<u8>>::empty());
    assert(fc.subrange(0, fc.len() as int) =~= fc);
    assert(sc.subrange(0, sc.len() as int) =~= sc);
    let e = Seq::<u8>::empty();
    assert(joined(fc) + e =~= joined(fc));
    assert(joined(sc) + e =~= joined(sc));
    assert(e + joined(fc) =~= joined(fc));
    assert(e + joined(sc) =~= joined(sc));
    assert(e + e =~= e);
    if by_first {
        if let GatePhase::Holding(k) = run.first {
            if k < fc.len() {
                lemma_joined_prefix(fc, k as int);
                assert(next.stream =~= settled(run.second, sc) + joined(fc.subrange(0, k + 1 as int)));
            }
        }
    } else {
        if let GatePhase::Holding(k) = run.second {
            if k < sc.len() {
                lemma_joined_prefix(sc, k as int);
                assert(next.stream =~= settled(run.first, fc) + joined(sc.subrange(0, k + 1 as int)));
            }
        }
    }
}

/// The execution gate's invariant holds after any schedule.
pub proof fn lemma_gate_invariant(schedule: Seq<bool>, fc: Seq<Seq<u8>>, sc: Seq<Seq<u8>>)
    ensures
        gate_invariant(gate_run(schedule, fc, sc), fc, sc),
    decreases schedule.len(),
{
    if schedule.len() == 0 {
        assert(Seq::<u8>::empty() + Seq::<u8>::empty() =~= Seq::<u8>::empty());
    } else {
        lemma_gate_invariant(schedule.drop_last(), fc, sc);
        lemma_gate_step_keeps_invariant(gate_run(schedule.drop_last(), fc, sc), schedule.last(), fc, sc);
    }
}

/// A model of the lock discipline that the callers of the execution gate
/// follow (take the token, send, wait, snapshot, give it back), not of the
/// lock itself: two callers that inject concurrently under it never interleave;
/// whatever the order in which their steps run, and however their bytes are
/// split into writes, once both are done the terminal has received all of the
/// first caller's bytes before all of the second's, or the other way round.
pub proof fn lemma_gated_injections_do_not_interleave(
    schedule: Seq<bool>,
    first_chunks: Seq<Seq<u8>>,
    second_chunks: Seq<Seq<u8>>,
)
    requires
        gate_run(schedule, first_chunks, second_chunks).first is Done,
        gate_run(schedule, first_chunks, second_chunks).second is Done,
    ensures
        gate_run(schedule, first_chunks, second_chunks).stream == joined(first_chunks) + joined(
            second_chunks,
        ) || gate_run(schedule, first_chunks, second_chunks).stream == joined(second_chunks)
            + joined(first_chunks),
{
    lemma_gate_invariant(schedule, first_chunks, second_chunks);
}

} // verus!
