//! What the terminal shows for a session: the preedit underlined, the
//! cursor moved back to its place in the preedit, then the pending commit.

use vstd::prelude::*;
use crate::session::{AppState, SessionView};

verus! {

/// The drawing of one session, for the terminal to carry out.
#[derive(Clone, Debug, PartialEq, Eq)]
pub struct RenderPlan {
    /// Text to print underlined; empty when there is no preedit.
    pub preedit: String,
    /// Columns to move left after the preedit, so that the cursor stands
    /// at its code-point offset (a column per code point).
    pub cursor_back: u16,
    /// Text to print after the preedit; empty when no commit is pending.
    pub commit: String,
}

/// The mathematical value of a plan.
pub ghost struct RenderPlanView {
    pub preedit: Seq<char>,
    pub cursor_back: int,
    pub commit: Seq<char>,
}

impl View for RenderPlan {
    type V = RenderPlanView;

    open spec fn view(&self) -> RenderPlanView {
        RenderPlanView {
            preedit: self.preedit@,
            cursor_back: self.cursor_back as int,
            commit: self.commit@,
        }
    }
}

/// How far the cursor moves back from the end of the preedit: the code points
/// after the cursor (none if the cursor lies past the end), at most the
/// widest move the terminal takes.
pub open spec fn cursor_back_of(s: SessionView) -> int {
    let len = s.preedit.len() as int;
    let to_cursor = if s.cursor < 0 {
        0
    } else if s.cursor < len {
        s.cursor
    } else {
        len
    };
    if len - to_cursor > u16::MAX {
        u16::MAX as int
    } else {
        len - to_cursor
    }
}

/// The plan that draws a session.
pub open spec fn plan_of(s: SessionView) -> RenderPlanView {
    RenderPlanView { preedit: s.preedit, cursor_back: cursor_back_of(s), commit: s.commit }
}

/// Lays out the drawing of the current session.
pub fn render_plan(state: &AppState) -> (r: RenderPlan)
    ensures
        r@ == plan_of(state@),
{
    let len = state.preedit_string.as_str().unicode_len();
    let to_cursor: usize = if state.preedit_cursor_pos < len {
        state.preedit_cursor_pos
    } else {
        len
    };
    let back = len - to_cursor;
    let cursor_back: u16 = if back > 0xffff {
        0xffff
    } else {
        back as u16
    };
    RenderPlan {
        preedit: state.preedit_string.clone(),
        cursor_back,
        commit: state.commit_string.clone(),
    }
}

} // verus!
