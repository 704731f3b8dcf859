//! The preedit/commit session: what the input method has composed so far,
//! and the text it last committed.

use vstd::prelude::*;

verus! {

/// One segment of formatted preedit text, as the input method sends it.
#[derive(Clone, Debug, PartialEq, Eq)]
pub struct FormattedText {
    pub text: String,
    /// The segment's format flags (underline, highlight, ...).
    pub format: i32,
}

impl FormattedText {
    pub fn new(text: String, format: i32) -> (r: FormattedText)
        ensures
            r.text@ == text@,
            r.format == format,
    {
        FormattedText { text, format }
    }
}

/// A notification from the input method.
#[derive(Clone, Debug, PartialEq, Eq)]
pub enum FcitxUpdate {
    /// Finalized text.
    CommitString(String),
    /// The text being composed, with a cursor offset that may lie outside it.
    /// The offset counts code points (not bytes, not UTF-16 units): whoever
    /// builds this value from the wire converts to that unit first, and
    /// applying it clamps the offset into the text.
    UpdatePreedit { text: String, cursor_pos: i32 },
}

/// The mathematical value of an update.
pub ghost enum UpdateView {
    Commit { text: Seq<char> },
    Preedit { text: Seq<char>, cursor: int },
}

impl View for FcitxUpdate {
    type V = UpdateView;

    open spec fn view(&self) -> UpdateView {
        match self {
            FcitxUpdate::CommitString(t) => UpdateView::Commit { text: t@ },
            FcitxUpdate::UpdatePreedit { text, cursor_pos } => UpdateView::Preedit {
                text: text@,
                cursor: *cursor_pos as int,
            },
        }
    }
}

/// The text of the segments, one after another.
pub open spec fn joined_text(segments: Seq<FormattedText>) -> Seq<char>
    decreases segments.len(),
{
    if segments.len() == 0 {
        Seq::empty()
    } else {
        joined_text(segments.drop_last()) + segments.last().text@
    }
}

/// Builds the preedit update that a formatted-preedit notification stands for:
/// the segments' text joined, formats dropped, the cursor passed on as it came.
/// `cursor_pos` is taken as a code-point offset into the joined text; it is
/// not converted here, and an offset outside the text is clamped when the
/// update is applied.
pub fn preedit_from_segments(segments: Vec<FormattedText>, cursor_pos: i32) -> (r: FcitxUpdate)
    ensures
        r@ == (UpdateView::Preedit { text: joined_text(segments@), cursor: cursor_pos as int }),
{
    let mut text = String::new();
    let mut i: usize = 0;
    while i < segments.len()
        invariant
            i <= segments@.len(),
            text@ == joined_text(segments@.take(i as int)),
        decreases segments@.len() - i,
    {
        text.append(segments[i].text.as_str());
        proof {
            assert(segments@.take(i + 1).drop_last() == segments@.take(i as int));
        }
        i = i + 1;
    }
    proof {
        assert(segments@.take(i as int) == segments@);
    }
    FcitxUpdate::UpdatePreedit { text, cursor_pos }
}

/// The mathematical value of a session.
pub ghost struct SessionView {
    /// The text being composed.
    pub preedit: Seq<char>,
    /// The cursor in the preedit, in code points.
    pub cursor: int,
    /// Text committed and not yet shown.
    pub commit: Seq<char>,
}

impl SessionView {
    /// The cursor is a valid code-point index into the preedit.
    pub open spec fn cursor_in_bounds(self) -> bool {
        0 <= self.cursor <= self.preedit.len()
    }
}

/// The offset `cursor` brought into `[0, len]`.
pub open spec fn clamp_cursor(cursor: int, len: int) -> int {
    if cursor < 0 {
        0
    } else if cursor > len {
        len
    } else {
        cursor
    }
}

/// The session after one update. A preedit update replaces the preedit and
/// clamps its cursor; a commit empties the preedit. Either drops the commit
/// that was pending before it.
pub open spec fn applied(s: SessionView, u: UpdateView) -> SessionView {
    match u {
        UpdateView::Commit { text } => SessionView {
            preedit: Seq::empty(),
            cursor: 0,
            commit: text,
        },
        UpdateView::Preedit { text, cursor } => SessionView {
            preedit: text,
            cursor: clamp_cursor(cursor, text.len() as int),
            commit: Seq::empty(),
        },
    }
}

/// The session after a sequence of updates, applied in order.
pub open spec fn applied_all(s: SessionView, updates: Seq<UpdateView>) -> SessionView
    decreases updates.len(),
{
    if updates.len() == 0 {
        s
    } else {
        applied(applied_all(s, updates.drop_last()), updates.last())
    }
}

/// The session state, owned by the dispatcher.
#[derive(Clone, Debug, PartialEq, Eq)]
pub struct AppState {
    pub preedit_string: String,
    /// Cursor in the preedit, in code points.
    pub preedit_cursor_pos: usize,
    /// Committed text waiting to be shown; empty when there is none.
    pub commit_string: String,
}

impl View for AppState {
    type V = SessionView;

    open spec fn view(&self) -> SessionView {
        SessionView {
            preedit: self.preedit_string@,
            cursor: self.preedit_cursor_pos as int,
            commit: self.commit_string@,
        }
    }
}

impl AppState {
    /// The session's invariant: the cursor lies within the preedit.
    pub open spec fn wf(&self) -> bool {
        self@.cursor_in_bounds()
    }

    /// An empty session: no preedit, no pending commit.
    pub fn new() -> (r: AppState)
        ensures
            r@ == (SessionView { preedit: Seq::empty(), cursor: 0, commit: Seq::empty() }),
            r.wf(),
    {
        AppState {
            preedit_string: String::new(),
            preedit_cursor_pos: 0,
            commit_string: String::new(),
        }
    }

    /// Applies one update from the input method.
    pub fn apply_update(&mut self, update: FcitxUpdate)
        ensures
            final(self)@ == applied(old(self)@, update@),
            final(self).wf(),
            update is CommitString ==> final(self).preedit_string@.len() == 0
                && final(self).preedit_cursor_pos == 0,
    {
        match update {
            FcitxUpdate::CommitString(text) => {
                self.preedit_string = String::new();
                self.preedit_cursor_pos = 0;
                self.commit_string = text;
            },
            FcitxUpdate::UpdatePreedit { text, cursor_pos } => {
                let len = text.as_str().unicode_len();
                let cursor: usize = if cursor_pos < 0 {
                    0
                } else if cursor_pos as usize > len {
                    len
                } else {
                    cursor_pos as usize
                };
                self.preedit_string = text;
                self.preedit_cursor_pos = cursor;
                self.commit_string = String::new();
            },
        }
    }

    /// Drops the pending commit once it has been shown.
    pub fn clear_commit(&mut self)
        ensures
            final(self)@ == (SessionView { commit: Seq::empty(), ..old(self)@ }),
    {
        self.commit_string = String::new();
    }
}

/// Whatever updates come, in whatever order and with whatever cursor
/// offsets (negative or past the end), the cursor lies within the preedit
/// after each of them.
pub proof fn lemma_cursor_stays_in_bounds(s: SessionView, updates: Seq<UpdateView>)
    ensures
        forall|i: int|
            0 < i <= updates.len() ==> (#[trigger] applied_all(s, updates.take(i))).cursor_in_bounds(),
{
    assert forall|i: int| 0 < i <= updates.len() implies (#[trigger] applied_all(
        s,
        updates.take(i),
    )).cursor_in_bounds() by {
        let p = updates.take(i);
        assert(p.len() > 0);
    }
}

/// A commit leaves the preedit empty with the cursor at its start, and
/// holds the committed text as pending.
pub proof fn lemma_commit_clears_preedit(s: SessionView, text: Seq<char>)
    ensures
        applied(s, UpdateView::Commit { text }).preedit.len() == 0,
        applied(s, UpdateView::Commit { text }).cursor == 0,
        applied(s, UpdateView::Commit { text }).commit == text,
{
}

} // verus!
