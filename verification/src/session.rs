//! The session: editor and log together, and what each event does to them.
//!
//! A driver owns one [`State`], draws it, blocks on the next event and hands
//! that event to [`State::handle`]. Events are applied in the order in which
//! they arrive; the session ends with the first failure of the terminal.

use crate::editor::{Command, EditorState, EditorView};
use crate::log_store::LogStore;
use vstd::prelude::*;

verus! {

/// A decoded key press.
#[derive(Clone, Copy, Debug, PartialEq, Eq, Structural)]
pub enum Key {
    /// A character key.
    Char(char),
    /// The key that submits the line.
    Enter,
    Backspace,
    Left,
    Right,
    Home,
    End,
    /// Any key that the screen has no use for.
    Other,
}

/// What a key press asks of the session.
#[derive(Clone, Copy, Debug, PartialEq, Eq, Structural)]
pub enum Action {
    /// Move the line into the log and start a new one.
    Submit,
    /// Change the line.
    Edit(Command),
    /// Do nothing.
    Ignore,
}

/// What the driver reports after waiting for input or drawing a frame.
#[derive(Clone, Copy, Debug, PartialEq, Eq, Structural)]
pub enum Event {
    /// A key was pressed.
    Key(Key),
    /// Something happened that is no key press.
    Unrecognized,
    /// The terminal could not be read or written.
    Failure,
}

/// Whether the session still takes events.
#[derive(Clone, Copy, Debug, PartialEq, Eq, Structural)]
pub enum Phase {
    Running,
    Terminated,
}

/// The optional parts of the screen.
#[derive(Clone, Copy, Debug, PartialEq, Eq, Structural)]
pub struct Capabilities {
    /// Submitted lines are kept in the log.
    pub log: bool,
    /// The terminal cursor is shown in the input field.
    pub cursor: bool,
}

/// The action that `key` stands for.
pub open spec fn action_of(key: Key) -> Action {
    match key {
        Key::Enter => Action::Submit,
        Key::Char(c) => Action::Edit(Command::Insert(c)),
        Key::Backspace => Action::Edit(Command::DeleteBackward),
        Key::Left => Action::Edit(Command::MoveLeft),
        Key::Right => Action::Edit(Command::MoveRight),
        Key::Home => Action::Edit(Command::MoveToStart),
        Key::End => Action::Edit(Command::MoveToEnd),
        Key::Other => Action::Ignore,
    }
}

/// Names the action that a key press stands for.
pub fn classify(key: Key) -> (action: Action)
    ensures
        action == action_of(key),
{
    match key {
        Key::Enter => Action::Submit,
        Key::Char(c) => Action::Edit(Command::Insert(c)),
        Key::Backspace => Action::Edit(Command::DeleteBackward),
        Key::Left => Action::Edit(Command::MoveLeft),
        Key::Right => Action::Edit(Command::MoveRight),
        Key::Home => Action::Edit(Command::MoveToStart),
        Key::End => Action::Edit(Command::MoveToEnd),
        Key::Other => Action::Ignore,
    }
}

/// A session as mathematics.
pub struct StateView {
    pub input: EditorView,
    pub log: Seq<Seq<char>>,
    pub phase: Phase,
    pub capabilities: Capabilities,
}

impl StateView {
    /// The session that a driver starts with.
    pub open spec fn initial(capabilities: Capabilities) -> StateView {
        StateView {
            input: EditorView::empty(),
            log: Seq::empty(),
            phase: Phase::Running,
            capabilities,
        }
    }

    /// The line goes to the end of the log, where a log is kept, and the
    /// editor starts over.
    pub open spec fn submit(self) -> StateView {
        StateView {
            input: self.input.reset(),
            log: if self.capabilities.log {
                self.log.push(self.input.text)
            } else {
                self.log
            },
            ..self
        }
    }

    /// The session after `action`.
    pub open spec fn perform(self, action: Action) -> StateView {
        match action {
            Action::Submit => self.submit(),
            Action::Edit(command) => StateView { input: self.input.apply(command), ..self },
            Action::Ignore => self,
        }
    }

    /// The session after `event`. A running session takes it; a terminated
    /// one takes nothing any more.
    pub open spec fn handle(self, event: Event) -> StateView {
        match self.phase {
            Phase::Terminated => self,
            Phase::Running => match event {
                Event::Key(key) => self.perform(action_of(key)),
                Event::Unrecognized => self,
                Event::Failure => StateView { phase: Phase::Terminated, ..self },
            },
        }
    }

    /// The session after all of `events`, first to last.
    pub open spec fn handle_all(self, events: Seq<Event>) -> StateView
        decreases events.len(),
    {
        if events.len() == 0 {
            self
        } else {
            self.handle_all(events.drop_last()).handle(events.last())
        }
    }
}

/// Editor and log of one session.
pub struct State {
    input: EditorState,
    log: LogStore,
    phase: Phase,
    capabilities: Capabilities,
}

impl View for State {
    type V = StateView;

    closed spec fn view(&self) -> StateView {
        StateView {
            input: self.input@,
            log: self.log@,
            phase: self.phase,
            capabilities: self.capabilities,
        }
    }
}

impl State {
    /// The invariant of the session: that of its editor.
    pub open spec fn wf(&self) -> bool {
        self@.input.valid()
    }

    /// A running session with an empty line and an empty log, which keeps a
    /// log and shows the cursor.
    pub fn init() -> (state: State)
        ensures
            state@ == StateView::initial(Capabilities { log: true, cursor: true }),
            state.wf(),
    {
        State::with_capabilities(Capabilities { log: true, cursor: true })
    }

    /// A running session with an empty line and an empty log.
    pub fn with_capabilities(capabilities: Capabilities) -> (state: State)
        ensures
            state@ == StateView::initial(capabilities),
            state.wf(),
    {
        State { input: EditorState::new(), log: LogStore::new(), phase: Phase::Running, capabilities }
    }

    /// The editor of the input field.
    pub fn input(&self) -> (input: &EditorState)
        ensures
            input@ == self@.input,
            self.wf() ==> input.wf(),
    {
        &self.input
    }

    /// The log.
    pub fn log(&self) -> (log: &LogStore)
        ensures
            log@ == self@.log,
    {
        &self.log
    }

    /// Whether the session still takes events.
    pub fn phase(&self) -> (phase: Phase)
        ensures
            phase == self@.phase,
    {
        self.phase
    }

    /// The optional parts that this session was started with.
    pub fn capabilities(&self) -> (capabilities: Capabilities)
        ensures
            capabilities == self@.capabilities,
    {
        self.capabilities
    }

    /// Moves the line into the log, where one is kept, and clears the editor.
    pub fn submit(&mut self)
        requires
            old(self).wf(),
        ensures
            final(self)@ == old(self)@.submit(),
            final(self).wf(),
    {
        if self.capabilities.log {
            let line = self.input.value();
            self.log.append(line);
        }
        self.input.reset();
    }

    /// Carries out `action`.
    pub fn perform(&mut self, action: Action)
        requires
            old(self).wf(),
        ensures
            final(self)@ == old(self)@.perform(action),
            final(self).wf(),
    {
        match action {
            Action::Submit => self.submit(),
            Action::Edit(command) => self.input.apply(command),
            Action::Ignore => {},
        }
    }

    /// Takes one event: a key press is classified and carried out, a failure
    /// ends the session, anything else changes nothing. The phase afterwards
    /// tells the driver whether to go on.
    pub fn handle(&mut self, event: Event) -> (phase: Phase)
        requires
            old(self).wf(),
        ensures
            final(self)@ == old(self)@.handle(event),
            phase == final(self)@.phase,
            final(self).wf(),
    {
        match self.phase {
            Phase::Terminated => {},
            Phase::Running => match event {
                Event::Key(key) => self.perform(classify(key)),
                Event::Unrecognized => {},
                Event::Failure => {
                    self.phase = Phase::Terminated;
                },
            },
        }
        self.phase
    }
}

/// A terminated session stays as it is, whatever arrives.
pub proof fn terminated_is_final(state: StateView, events: Seq<Event>)
    requires
        state.phase == Phase::Terminated,
    ensures
        state.handle_all(events) == state,
    decreases events.len(),
{
    if events.len() > 0 {
        terminated_is_final(state, events.drop_last());
    }
}

/// Only a failure ends a running session; every other event leaves it
/// running, and a failure changes neither the line nor the log.
pub proof fn only_failure_terminates(state: StateView, event: Event)
    requires
        state.phase == Phase::Running,
    ensures
        state.handle(event).phase == Phase::Terminated <==> event == Event::Failure,
        event == Event::Failure ==> state.handle(event).input == state.input && state.handle(
            event,
        ).log == state.log,
{
}

/// The log only grows: whatever the event, the lines that were there stay,
/// in place and unchanged, and at most one is added behind them.
pub proof fn log_is_append_only(state: StateView, event: Event)
    ensures
        state.log.len() <= state.handle(event).log.len() <= state.log.len() + 1,
        state.handle(event).log.take(state.log.len() as int) == state.log,
{
    let after = state.handle(event).log;
    assert(after.take(state.log.len() as int) =~= state.log);
}

/// No event moves the cursor out of the text.
pub proof fn handle_keeps_cursor_in_text(state: StateView, event: Event)
    requires
        state.input.valid(),
    ensures
        state.handle(event).input.valid(),
{
}

/// Submitting a line leaves the empty editor, and with a log the line is
/// its newest entry.
pub proof fn submit_moves_line_to_log(state: StateView)
    requires
        state.phase == Phase::Running,
    ensures
        state.handle(Event::Key(Key::Enter)).input == EditorView::empty(),
        state.capabilities.log ==> state.handle(Event::Key(Key::Enter)).log == state.log.push(
            state.input.text,
        ),
        !state.capabilities.log ==> state.handle(Event::Key(Key::Enter)).log == state.log,
{
}

} // verus!
