//! The event dispatcher: one state machine that takes, in whatever order
//! they come, the terminal's key events and the input method's updates, and
//! says what to do next. Waiting for the two sources, talking to the input
//! method and drawing belong to the caller, which hands each outcome back as
//! an [`Effect`] and carries out the [`Action`] it gets.

use vstd::prelude::*;
use crate::error::FepError;
use crate::keymap::{map_key_event_to_fcitx, mapped_key, KeyCode, KeyEvent, KeyModifiers};
use crate::render::{plan_of, render_plan, RenderPlan};
use crate::session::{applied, applied_all, AppState, FcitxUpdate, SessionView, UpdateView};

verus! {

/// Whether the dispatcher still takes events.
#[derive(Clone, Copy, Debug, PartialEq, Eq, Structural)]
pub enum Phase {
    Running,
    Terminating,
}

/// Something that happened at one of the two sources, or the outcome of an
/// action.
#[derive(Clone, Debug, PartialEq, Eq)]
pub enum Effect {
    /// The terminal read a key.
    Key(KeyEvent),
    /// The terminal's input ended.
    KeysEnded,
    /// The input method sent an update.
    Update(FcitxUpdate),
    /// The input method's update stream ended.
    UpdatesEnded,
    /// A forwarded key was answered: whether the input method consumed it.
    Forwarded(bool),
    /// Reading a source, forwarding a key or drawing failed.
    Failed(FepError),
}

/// What the caller does next.
#[derive(Debug, PartialEq, Eq)]
pub enum Action {
    /// Send this key to the input method, as a press, and report the answer.
    Forward { keysym: u32, keycode: u32, state: u32 },
    /// Draw this plan on the terminal.
    Render(RenderPlan),
    /// Nothing to do.
    Ignore,
    /// Leave the loop and clean up, with this outcome.
    Exit(Result<(), FepError>),
}

/// The text of the error raised when the input method's updates stop.
pub open spec fn connection_lost_text() -> Seq<char> {
    "Fcitx update stream unexpectedly ended"@
}

/// The quit chord: Control and `c`.
pub open spec fn is_quit_chord(k: KeyEvent) -> bool {
    k.code == KeyCode::Char('c') && k.modifiers.has(KeyModifiers::CONTROL)
}

/// Whether an effect ends a running dispatcher: the quit chord, the end of
/// either source, or any failure.
pub open spec fn ends_session(e: Effect) -> bool {
    match e {
        Effect::Key(k) => is_quit_chord(k),
        Effect::KeysEnded => true,
        Effect::UpdatesEnded => true,
        Effect::Failed(_) => true,
        _ => false,
    }
}

/// The session once its pending commit has been shown.
pub open spec fn shown(s: SessionView) -> SessionView {
    SessionView { commit: Seq::empty(), ..s }
}

/// The mathematical value of a dispatcher.
pub ghost struct DispatcherView {
    pub phase: Phase,
    pub session: SessionView,
}

/// The dispatcher after one effect. Only a running dispatcher changes: an
/// update is applied to the session (and its commit shown), and an effect
/// that ends the session moves it to `Terminating`.
pub open spec fn stepped(d: DispatcherView, e: Effect) -> DispatcherView {
    if d.phase == Phase::Running {
        DispatcherView {
            phase: if ends_session(e) {
                Phase::Terminating
            } else {
                Phase::Running
            },
            session: match e {
                Effect::Update(u) => shown(applied(d.session, u@)),
                _ => d.session,
            },
        }
    } else {
        d
    }
}

/// The action owed for an effect. A stopped dispatcher ignores everything,
/// so that cleanup happens once.
pub open spec fn action_for(d: DispatcherView, e: Effect, a: Action) -> bool {
    if d.phase == Phase::Terminating {
        a is Ignore
    } else {
        match e {
            Effect::Key(k) => if is_quit_chord(k) {
                a == Action::Exit(Ok(()))
            } else {
                match mapped_key(k) {
                    Some((keysym, keycode, state)) => a == (Action::Forward {
                        keysym,
                        keycode,
                        state,
                    }),
                    None => a is Ignore,
                }
            },
            Effect::KeysEnded => a == Action::Exit(Ok(())),
            Effect::Update(u) => a matches Action::Render(plan) && plan@ == plan_of(
                applied(d.session, u@),
            ),
            Effect::UpdatesEnded => a matches Action::Exit(Err(FepError::FcitxConnection(m)))
                && m@ == connection_lost_text(),
            Effect::Forwarded(_) => a is Ignore,
            Effect::Failed(err) => a == Action::Exit(Err(err)),
        }
    }
}

/// The dispatcher after a sequence of effects, taken in order.
pub open spec fn run(d: DispatcherView, effects: Seq<Effect>) -> DispatcherView
    decreases effects.len(),
{
    if effects.len() == 0 {
        d
    } else {
        stepped(run(d, effects.drop_last()), effects.last())
    }
}

/// The input method's updates among the effects, in their order.
pub open spec fn updates_in(effects: Seq<Effect>) -> Seq<UpdateView>
    decreases effects.len(),
{
    if effects.len() == 0 {
        Seq::empty()
    } else {
        match effects.last() {
            Effect::Update(u) => updates_in(effects.drop_last()).push(u@),
            _ => updates_in(effects.drop_last()),
        }
    }
}

/// Key events other than the quit chord, the answers to forwarded keys, and
/// updates: what arrives while a session goes on.
pub open spec fn is_key_or_update(e: Effect) -> bool {
    match e {
        Effect::Key(k) => !is_quit_chord(k),
        Effect::Forwarded(_) => true,
        Effect::Update(_) => true,
        _ => false,
    }
}

/// The event dispatcher. It alone owns and changes the session.
pub struct Dispatcher {
    phase: Phase,
    state: AppState,
}

impl View for Dispatcher {
    type V = DispatcherView;

    closed spec fn view(&self) -> DispatcherView {
        DispatcherView { phase: self.phase, session: self.state@ }
    }
}

impl Dispatcher {
    /// Between steps the cursor lies within the preedit and no commit waits
    /// to be shown.
    pub open spec fn wf(&self) -> bool {
        self@.session.cursor_in_bounds() && self@.session.commit.len() == 0
    }

    /// A running dispatcher over an empty session.
    pub fn new() -> (r: Dispatcher)
        ensures
            r@.phase == Phase::Running,
            r@.session == (SessionView { preedit: Seq::empty(), cursor: 0, commit: Seq::empty() }),
            r.wf(),
    {
        Dispatcher { phase: Phase::Running, state: AppState::new() }
    }

    pub fn phase(&self) -> (r: Phase)
        ensures
            r == self@.phase,
    {
        self.phase
    }

    pub fn is_running(&self) -> (r: bool)
        ensures
            r == (self@.phase == Phase::Running),
    {
        match self.phase {
            Phase::Running => true,
            Phase::Terminating => false,
        }
    }

    /// The current session.
    pub fn state(&self) -> (r: &AppState)
        ensures
            r@ == self@.session,
    {
        &self.state
    }

    /// Takes one effect and returns what to do about it.
    pub fn step(&mut self, effect: Effect) -> (a: Action)
        ensures
            final(self)@ == stepped(old(self)@, effect),
            action_for(old(self)@, effect, a),
            old(self).wf() ==> final(self).wf(),
    {
        if !self.is_running() {
            return Action::Ignore;
        }
        match effect {
            Effect::Key(key_event) => {
                if key_event.code == KeyCode::Char('c') && key_event.modifiers.contains(
                    KeyModifiers::CONTROL,
                ) {
                    self.phase = Phase::Terminating;
                    Action::Exit(Ok(()))
                } else {
                    match map_key_event_to_fcitx(&key_event) {
                        Some((keysym, keycode, state)) => Action::Forward { keysym, keycode, state },
                        None => Action::Ignore,
                    }
                }
            },
            Effect::KeysEnded => {
                self.phase = Phase::Terminating;
                Action::Exit(Ok(()))
            },
            Effect::Update(update) => {
                self.state.apply_update(update);
                let plan = render_plan(&self.state);
                self.state.clear_commit();
                Action::Render(plan)
            },
            Effect::UpdatesEnded => {
                self.phase = Phase::Terminating;
                Action::Exit(
                    Err(
                        FepError::FcitxConnection(
                            String::from_str("Fcitx update stream unexpectedly ended"),
                        ),
                    ),
                )
            },
            Effect::Forwarded(_handled) => Action::Ignore,
            Effect::Failed(err) => {
                self.phase = Phase::Terminating;
                Action::Exit(Err(err))
            },
        }
    }
}

/// Key events and updates may interleave in any order: as long as no effect
/// ends the session, the dispatcher keeps running, and its session is the one
/// that the updates alone give, applied in their order (each commit shown).
pub proof fn lemma_interleaving_keeps_update_order(d: DispatcherView, effects: Seq<Effect>)
    requires
        d.phase == Phase::Running,
        d.session.commit.len() == 0,
        forall|i: int| 0 <= i < effects.len() ==> is_key_or_update(#[trigger] effects[i]),
    ensures
        run(d, effects).phase == Phase::Running,
        run(d, effects).session == shown(applied_all(d.session, updates_in(effects))),
    decreases effects.len(),
{
    if effects.len() == 0 {
        assert(d.session.commit =~= Seq::empty());
        assert(shown(d.session) == d.session);
    } else {
        let prefix = effects.drop_last();
        assert forall|i: int| 0 <= i < prefix.len() implies is_key_or_update(
            #[trigger] prefix[i],
        ) by {
            assert(prefix[i] == effects[i]);
        }
        assert(is_key_or_update(effects[effects.len() - 1]));
        lemma_interleaving_keeps_update_order(d, prefix);
        match effects.last() {
            Effect::Update(u) => {
                let ups = updates_in(prefix).push(u@);
                assert(ups.drop_last() == updates_in(prefix));
            },
            _ => {},
        }
    }
}

} // verus!
