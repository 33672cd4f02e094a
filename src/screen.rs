//! The virtual terminal: a screen emulator of fixed size fed with the shell's
//! output, from which snapshots are taken.

use vstd::prelude::*;
use vstd::slice::slice_subrange;
use vstd::utf8::{decode_utf8, valid_utf8};

use crate::snapshot::TerminalSnapshot;
use crate::worker::{drain_step, drain_step_spec, DrainStep, ReadOutcome};

verus! {

#[verifier::external_type_specification]
#[verifier::external_body]
pub struct ExVt(avt::Vt);

/// The text that lossy UTF-8 decoding makes of some bytes.
pub uninterp spec fn lossy_text(b: Seq<u8>) -> Seq<char>;

/// The text an emulator has taken in since it was made, in order.
pub uninterp spec fn vt_input(vt: avt::Vt) -> Seq<char>;

/// The (columns, rows) an emulator was made with.
pub uninterp spec fn vt_size(vt: avt::Vt) -> (usize, usize);

/// The text of each visible row of an emulator of `cols` by `rows` cells,
/// without scrollback, once it has taken in `input`.
pub uninterp spec fn screen_lines_of(cols: usize, rows: usize, input: Seq<char>) -> Seq<Seq<char>>;

/// The cursor's (column, row), when visible, of an emulator of `cols` by
/// `rows` cells, without scrollback, once it has taken in `input`.
pub uninterp spec fn screen_cursor_of(cols: usize, rows: usize, input: Seq<char>) -> Option<
    (usize, usize),
>;

/// Relies on `String::from_utf8_lossy`: bytes read as UTF-8 with malformed
/// sequences replaced; the text depends on the bytes alone, and valid UTF-8 is
/// decoded as it is.
#[verifier::external_body]
fn decode_lossy(bytes: &[u8]) -> (r: String)
    ensures
        r@ == lossy_text(bytes@),
        valid_utf8(bytes@) ==> r@ == decode_utf8(bytes@),
{
    String::from_utf8_lossy(bytes).into_owned()
}

/// Relies on avt's `Vt::builder`: an emulator of `cols` by `rows` cells that
/// keeps no scrollback and has taken in nothing yet.
#[verifier::external_body]
fn new_vt(cols: usize, rows: usize) -> (r: avt::Vt)
    requires
        cols > 0,
        rows > 0,
    ensures
        vt_size(r) == (cols, rows),
        vt_input(r) == Seq::<char>::empty(),
{
    avt::Vt::builder().size(cols, rows).scrollback_limit(0).build()
}

/// Relies on avt's `Vt::feed_str`: the emulator takes in the text, character
/// by character, after what it took in before; its size does not change.
#[verifier::external_body]
fn feed_vt(vt: &mut avt::Vt, text: &str)
    ensures
        vt_size(*final(vt)) == vt_size(*old(vt)),
        vt_input(*final(vt)) == vt_input(*old(vt)) + text@,
{
    vt.feed_str(text);
}

/// Relies on avt's `Vt::cursor` and its conversion to an option: the cursor's
/// (column, row) when it is visible, which depends on the size and the input.
#[verifier::external_body]
fn vt_cursor(vt: &avt::Vt) -> (r: Option<(usize, usize)>)
    ensures
        r == screen_cursor_of(vt_size(*vt).0, vt_size(*vt).1, vt_input(*vt)),
{
    vt.cursor().into()
}

/// Relies on avt's `Vt::view` and `Line::text`: the text of each visible row,
/// one per row of the size the emulator was made with.
#[verifier::external_body]
fn vt_lines(vt: &avt::Vt) -> (r: Vec<String>)
    ensures
        r@.map_values(|l: String| l@) == screen_lines_of(vt_size(*vt).0, vt_size(*vt).1, vt_input(*vt)),
        r@.len() == vt_size(*vt).1,
{
    vt.view().map(|line| line.text()).collect()
}

/// A screen emulator whose size is set once, when it is made.
pub struct VirtualTerminal {
    vt: avt::Vt,
    cols: usize,
    rows: usize,
}

impl VirtualTerminal {
    /// The (columns, rows) the screen was made with.
    pub closed spec fn size(&self) -> (usize, usize) {
        (self.cols, self.rows)
    }

    /// The text the screen has taken in since it was made.
    pub closed spec fn consumed(&self) -> Seq<char> {
        vt_input(self.vt)
    }

    /// The recorded size is the emulator's, and it is not empty.
    pub closed spec fn wf(&self) -> bool {
        &&& vt_size(self.vt) == (self.cols, self.rows)
        &&& self.cols > 0
        &&& self.rows > 0
    }

    /// A blank screen of `cols` by `rows` cells, without scrollback.
    pub fn new(cols: usize, rows: usize) -> (r: Self)
        requires
            cols > 0,
            rows > 0,
        ensures
            r.wf(),
            r.size() == (cols, rows),
            r.consumed() == Seq::<char>::empty(),
    {
        VirtualTerminal { vt: new_vt(cols, rows), cols, rows }
    }

    /// Feeds output of the shell, read as UTF-8 with malformed sequences
    /// replaced, after what the screen took in before. The size does not change.
    pub fn feed(&mut self, bytes: &[u8])
        requires
            old(self).wf(),
        ensures
            final(self).wf(),
            final(self).size() == old(self).size(),
            final(self).consumed() == old(self).consumed() + lossy_text(bytes@),
    {
        let text = decode_lossy(bytes);
        feed_vt(&mut self.vt, text.as_str());
    }

    /// Takes one read of the terminal while draining its output: decides the
    /// next step (see [`drain_step`]) and, when the read gave `n` bytes, feeds
    /// the first `n` bytes of `buf`; otherwise the screen is left as it is.
    pub fn absorb_read(&mut self, outcome: ReadOutcome, buf: &[u8]) -> (r: DrainStep)
        requires
            old(self).wf(),
            outcome matches ReadOutcome::Data(n) ==> n <= buf@.len(),
        ensures
            final(self).wf(),
            final(self).size() == old(self).size(),
            r == drain_step_spec(outcome),
            match r {
                DrainStep::Feed(n) => final(self).consumed() == old(self).consumed() + lossy_text(
                    buf@.subrange(0, n as int),
                ),
                _ => final(self).consumed() == old(self).consumed(),
            },
    {
        let r = drain_step(outcome);
        if let DrainStep::Feed(n) = r {
            self.feed(slice_subrange(buf, 0, n));
        }
        r
    }

    /// The cursor and rows that a snapshot of this screen holds.
    pub open spec fn shown(&self) -> (Option<(usize, usize)>, Seq<Seq<char>>) {
        (
            screen_cursor_of(self.size().0, self.size().1, self.consumed()),
            screen_lines_of(self.size().0, self.size().1, self.consumed()),
        )
    }

    /// The screen now: its configured size, the cursor when visible, and the
    /// text of each of its rows.
    pub fn snapshot(&self) -> (r: TerminalSnapshot)
        requires
            self.wf(),
        ensures
            r.cols == self.size().0,
            r.rows == self.size().1,
            r.cursor == self.shown().0,
            r.lines_view() == self.shown().1,
            r.lines@.len() == r.rows,
    {
        TerminalSnapshot {
            cols: self.cols,
            rows: self.rows,
            cursor: vt_cursor(&self.vt),
            lines: vt_lines(&self.vt),
        }
    }
}

/// What a snapshot shows depends on the screen's size and the text it has
/// taken in alone: a screen that has taken in nothing since an earlier
/// snapshot (as after a reset whose replacement could not be started) shows
/// the same cursor and rows again.
pub proof fn lemma_snapshot_depends_on_input(a: &VirtualTerminal, b: &VirtualTerminal)
    requires
        a.wf(),
        b.wf(),
        a.size() == b.size(),
        a.consumed() == b.consumed(),
    ensures
        a.shown() == b.shown(),
{
}

} // verus!
