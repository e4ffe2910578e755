//! The view-state machine and the main loop's run state.
//!
//! One pure transition function consumes every event from the channel.  No
//! transition ever fails: the quit key flips the run state to shutting down,
//! the tab keys switch the active view, the arrows move the scroll cursor,
//! and everything else — ticks included — leaves the state unchanged, so the
//! UI is robust against unmapped keys.

use vstd::prelude::*;

use crate::event::{Event, Key};
use crate::scroll::App;
use crate::tab::Tab;

verus! {

/// The main loop's state machine: it starts `Running` and moves to
/// `ShuttingDown` exactly once, on the quit key; `ShuttingDown` is terminal.
#[derive(Clone, Copy, Debug, PartialEq, Eq, Structural)]
pub enum RunState {
    Running,
    ShuttingDown,
}

/// The whole mutable UI state — the active tab and the scroll cursor —
/// bundled in one object passed through the transition function.  There is
/// no other mutable state shared with the sampler.
#[derive(Clone, Copy, Debug, PartialEq, Eq, Structural)]
pub struct UiState {
    /// The active tab.
    pub tab: Tab,
    /// The scroll cursor.
    pub app: App,
}

impl UiState {
    /// The startup state: the Home tab, cursor at the top.
    pub fn new() -> (st: UiState)
        ensures
            st.tab == Tab::Home,
            st.app.vertical_scroll == 0,
            st.app.vertical_scroll_state.position == 0,
            st.app.vertical_scroll_state.content_length == 0,
    {
        UiState { tab: Tab::Home, app: App::new() }
    }

    /// The transition relation, stated in full: what each event does to the
    /// state, and which events end the session.
    pub open spec fn apply_spec(self, ev: Event) -> (UiState, RunState) {
        match ev {
            Event::Tick => (self, RunState::Running),
            Event::Input(k) => match k {
                Key::Char(c) => if c == 'q' {
                    (self, RunState::ShuttingDown)
                } else {
                    match Tab::for_key_spec(c) {
                        Some(t) => (UiState { tab: t, app: self.app }, RunState::Running),
                        None => (self, RunState::Running),
                    }
                },
                Key::Down => (
                    UiState { tab: self.tab, app: self.app.down_spec() },
                    RunState::Running,
                ),
                Key::Up => (UiState { tab: self.tab, app: self.app.up_spec() }, RunState::Running),
                Key::Other => (self, RunState::Running),
            },
        }
    }

    /// The pure transition function: feed one event into the state, and
    /// learn whether the session goes on.  Never fails; unrecognized input
    /// is absorbed silently.
    pub fn apply(self, ev: Event) -> (r: (UiState, RunState))
        ensures
            r == self.apply_spec(ev),
    {
        match ev {
            Event::Tick => (self, RunState::Running),
            Event::Input(k) => match k {
                Key::Char(c) => if c == 'q' {
                    (self, RunState::ShuttingDown)
                } else {
                    match Tab::for_key(c) {
                        Some(t) => (UiState { tab: t, app: self.app }, RunState::Running),
                        None => (self, RunState::Running),
                    }
                },
                Key::Down => {
                    let mut a = self.app;
                    a.scroll_down();
                    (UiState { tab: self.tab, app: a }, RunState::Running)
                },
                Key::Up => {
                    let mut a = self.app;
                    a.scroll_up();
                    (UiState { tab: self.tab, app: a }, RunState::Running)
                },
                Key::Other => (self, RunState::Running),
            },
        }
    }

    /// The state after a whole sequence of events, fed in order.
    pub open spec fn apply_all(self, evs: Seq<Event>) -> UiState
        decreases evs.len(),
    {
        if evs.len() == 0 {
            self
        } else {
            self.apply_spec(evs[0]).0.apply_all(evs.drop_first())
        }
    }
}

/// Law: a tick changes nothing.  Its only role is to force a redraw, so
/// applying it to any state leaves the tab and the whole scroll cursor
/// unchanged, and the session keeps running.
pub proof fn lemma_tick_identity(st: UiState)
    ensures
        st.apply_spec(Event::Tick).0 == st,
        st.apply_spec(Event::Tick).1 == RunState::Running,
{
}

/// Law: a tab key switches only the tab.  Afterwards the active tab is the
/// one bound to the key — the enumeration makes it impossible for more or
/// fewer than one tab to be active — and the scroll cursor is carried over
/// untouched; render-time clamping can later only shrink its offset
/// (`lemma_clamped_shrinks`), never grow it.
pub proof fn lemma_tab_select(st: UiState, c: char)
    requires
        Tab::for_key_spec(c) is Some,
    ensures
        ({
            let (s2, run) = st.apply_spec(Event::Input(Key::Char(c)));
            &&& s2.tab == Tab::for_key_spec(c).unwrap()
            &&& s2.app == st.app
            &&& run == RunState::Running
        }),
{
}

/// Law: the quit key ends the session from any state, and changes the
/// state itself in no way.
pub proof fn lemma_quit_key(st: UiState)
    ensures
        st.apply_spec(Event::Input(Key::Char('q'))).0 == st,
        st.apply_spec(Event::Input(Key::Char('q'))).1 == RunState::ShuttingDown,
{
}

/// Law: scrolling up saturates at zero.  After any run of Up presses the
/// offset is the starting offset less the number of presses, floored at
/// zero — it never goes below zero — and the tab is untouched.
pub proof fn lemma_up_floor(st: UiState, evs: Seq<Event>)
    requires
        forall|i: int| 0 <= i < evs.len() ==> evs[i] == Event::Input(Key::Up),
    ensures
        st.apply_all(evs).app.vertical_scroll == if evs.len() >= st.app.vertical_scroll {
            0int
        } else {
            st.app.vertical_scroll - evs.len()
        },
        st.apply_all(evs).tab == st.tab,
    decreases evs.len(),
{
    if evs.len() > 0 {
        let st1 = st.apply_spec(evs[0]).0;
        lemma_up_floor(st1, evs.drop_first());
    }
}

/// A run of Down presses moves the offset up by their number, saturating
/// only at the type's maximum; the tab and the recorded content length are
/// untouched.
pub proof fn lemma_down_run(st: UiState, evs: Seq<Event>)
    requires
        forall|i: int| 0 <= i < evs.len() ==> evs[i] == Event::Input(Key::Down),
    ensures
        st.apply_all(evs).app.vertical_scroll == if st.app.vertical_scroll + evs.len()
            <= usize::MAX {
            st.app.vertical_scroll + evs.len()
        } else {
            usize::MAX as int
        },
        st.apply_all(evs).tab == st.tab,
        st.apply_all(evs).app.vertical_scroll_state.content_length
            == st.app.vertical_scroll_state.content_length,
    decreases evs.len(),
{
    if evs.len() > 0 {
        let st1 = st.apply_spec(evs[0]).0;
        lemma_down_run(st1, evs.drop_first());
    }
}

/// Law: Down presses followed by a render land exactly where they should.
/// From offset zero, after `evs` Down presses and a render against content
/// of length `len`, the offset is the smaller of the number of presses and
/// `len − 1` when there is content, and zero when there is none.
pub proof fn lemma_downs_then_render(st: UiState, evs: Seq<Event>, len: usize)
    requires
        st.app.vertical_scroll == 0,
        forall|i: int| 0 <= i < evs.len() ==> evs[i] == Event::Input(Key::Down),
        evs.len() <= usize::MAX,
    ensures
        ({
            let rendered = st.apply_all(evs).app.synced_spec(len);
            rendered.vertical_scroll == if len == 0 {
                0int
            } else if evs.len() < len {
                evs.len() as int
            } else {
                len - 1
            }
        }),
{
    lemma_down_run(st, evs);
}

/// The unrecoverable failures of a session.  All four are fatal: a broken
/// terminal or input subsystem cannot be safely recovered mid-session, so
/// nothing is retried.
#[derive(Clone, Copy, Debug, PartialEq, Eq, Structural)]
pub enum FatalError {
    /// Polling or reading the input device failed; the sampler stops
    /// emitting, which the main loop then sees as a closed channel.
    InputDevice,
    /// Entering or restoring the terminal's raw mode failed.
    TerminalMode,
    /// The event channel closed while the main loop was still running.
    ChannelClosed,
    /// Writing a frame to the terminal failed.
    Draw,
}

impl FatalError {
    /// The message written to standard error for this failure.
    pub open spec fn message_spec(self) -> Seq<char> {
        match self {
            FatalError::InputDevice => "the input device could not be read"@,
            FatalError::TerminalMode => "the terminal mode could not be changed"@,
            FatalError::ChannelClosed => "the event channel closed unexpectedly"@,
            FatalError::Draw => "a frame could not be drawn"@,
        }
    }

    /// The message written to standard error for this failure.
    pub fn message(self) -> (m: &'static str)
        ensures
            m@ == self.message_spec(),
    {
        match self {
            FatalError::InputDevice => "the input device could not be read",
            FatalError::TerminalMode => "the terminal mode could not be changed",
            FatalError::ChannelClosed => "the event channel closed unexpectedly",
            FatalError::Draw => "a frame could not be drawn",
        }
    }
}

/// How a session ended: with a clean quit, or on a fatal error.
#[derive(Clone, Copy, Debug, PartialEq, Eq, Structural)]
pub enum SessionEnd {
    /// The user pressed the quit key.
    CleanQuit,
    /// One of the unrecoverable failures occurred.
    Failed(FatalError),
}

impl SessionEnd {
    /// The process exit code: zero exactly on a clean quit, one on any
    /// fatal error.
    pub fn exit_code(self) -> (c: i32)
        ensures
            (c == 0) <==> (self is CleanQuit),
            self is Failed ==> c == 1,
    {
        match self {
            SessionEnd::CleanQuit => 0,
            SessionEnd::Failed(_) => 1,
        }
    }
}

/// What one main-loop step decides after waiting on the channel.
#[derive(Clone, Copy, Debug, PartialEq, Eq, Structural)]
pub enum Step {
    /// Keep looping with this state.
    Continue(UiState),
    /// The quit key was pressed: leave the loop cleanly.
    Quit(UiState),
    /// Stop on an unrecoverable failure.
    Fatal(FatalError),
}

/// The main loop's reaction to the outcome of waiting for the next event:
/// a closed channel (`None`) is fatal and is never retried; an event drives
/// the transition function, and a shutdown transition ends the loop cleanly.
pub fn on_recv(st: UiState, received: Option<Event>) -> (r: Step)
    ensures
        received is None ==> r == Step::Fatal(FatalError::ChannelClosed),
        received matches Some(ev) ==> r == ({
            let (s2, run) = st.apply_spec(ev);
            if run is ShuttingDown {
                Step::Quit(s2)
            } else {
                Step::Continue(s2)
            }
        }),
{
    match received {
        None => Step::Fatal(FatalError::ChannelClosed),
        Some(ev) => {
            let (s2, run) = st.apply(ev);
            match run {
                RunState::ShuttingDown => Step::Quit(s2),
                RunState::Running => Step::Continue(s2),
            }
        },
    }
}

} // verus!
