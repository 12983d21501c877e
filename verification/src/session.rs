use crate::command::{interpret, parse_verb, run_words, verb_of, Clock, ClockView, Outcome, Verb};
use crate::store::TodoList;
use crate::task::TaskView;
use crate::text::{split_words, str_eq, words_of};
use vstd::prelude::*;

verus! {

/// A key as the terminal reports it.
#[derive(Clone, Copy, Debug, PartialEq, Eq, Structural)]
pub enum Key {
    /// A character key; the enter key is `Char('\n')`.
    Char(char),
    /// A character key pressed together with the control key.
    Ctrl(char),
    Backspace,
    Esc,
    /// Any other key.
    Other,
}

/// What the session is doing.
pub enum State {
    /// The task list is shown.
    Browse,
    /// A command is being typed; the text so far starts with the colon that
    /// opened it.
    CommandEntry(String),
    /// The user was asked whether to leave with unsaved changes.
    ConfirmQuit,
}

/// The mathematical value of a [`State`].
pub enum StateView {
    Browse,
    CommandEntry(Seq<char>),
    ConfirmQuit,
}

impl View for State {
    type V = StateView;

    open spec fn view(&self) -> StateView {
        match self {
            State::Browse => StateView::Browse,
            State::CommandEntry(buffer) => StateView::CommandEntry(buffer@),
            State::ConfirmQuit => StateView::ConfirmQuit,
        }
    }
}

/// What the screen says below the task list.
#[derive(Clone, Copy, Debug, PartialEq, Eq, Structural)]
pub enum Notice {
    /// Nothing.
    Blank,
    /// What the last command came to.
    Result(Outcome),
    /// The store was saved.
    Saved,
    /// The store could not be saved.
    SaveFailed,
}

/// What the caller is to do after an event.
#[derive(Clone, Copy, Debug, PartialEq, Eq, Structural)]
pub enum Action {
    /// Nothing: the key means nothing here.
    Ignore,
    /// Draw the whole screen again, with the notice below the list.
    Render(Notice),
    /// Draw the command line again.
    RenderCommand,
    /// Ask on the last line whether to leave with unsaved changes.
    AskQuit,
    /// Tell the user that there are unsaved changes and how to leave
    /// anyway, then draw the screen again.
    WarnUnsaved,
    /// Show the help page until a key is pressed, then draw the screen
    /// again.
    ShowHelp,
    /// Save the store and report to `save_finished` how it went.
    Save { then_quit: bool },
    /// End the session.
    Exit,
}

/// The mathematical value of a [`Session`].
pub struct SessionView {
    pub state: StateView,
    /// Whether a command that changes the store was given since the last
    /// save.
    pub modified: bool,
}

/// The interactive session: which state it is in and whether there are
/// unsaved changes.
pub struct Session {
    state: State,
    modified: bool,
}

impl View for Session {
    type V = SessionView;

    closed spec fn view(&self) -> SessionView {
        SessionView { state: self.state@, modified: self.modified }
    }
}

/// Whether a command changes the store.
pub open spec fn is_mutating(verb: Verb) -> bool {
    verb == Verb::Add || verb == Verb::Edit || verb == Verb::Delete || verb == Verb::Complete
}

/// The command that a command line names, if it names one.
pub open spec fn verb_of_line(words: Seq<Seq<char>>) -> Verb {
    if words.len() == 0 || words[0] == ":"@ {
        Verb::Unknown
    } else {
        verb_of(words[0])
    }
}

/// What follows when a command line was carried out with the given outcome.
pub open spec fn after_command(modified: bool, verb: Verb, outcome: Outcome) -> (
    SessionView,
    Action,
) {
    let browse = SessionView { state: StateView::Browse, modified: modified || is_mutating(verb) };
    match outcome {
        Outcome::Quit => if modified {
            (browse, Action::WarnUnsaved)
        } else {
            (browse, Action::Exit)
        },
        Outcome::ForceQuit => (browse, Action::Exit),
        Outcome::Save => (browse, Action::Save { then_quit: false }),
        Outcome::SaveQuit => (browse, Action::Save { then_quit: true }),
        Outcome::Help => (browse, Action::ShowHelp),
        _ => (browse, Action::Render(Notice::Result(outcome))),
    }
}

/// The transition of the session on a key: the session and the store after
/// it, and what the caller is to do.
pub open spec fn step(session: SessionView, s: Seq<TaskView>, key: Key, clock: ClockView) -> (
    SessionView,
    Seq<TaskView>,
    Action,
) {
    match session.state {
        StateView::Browse => match key {
            Key::Char(':') => (
                SessionView { state: StateView::CommandEntry(seq![':']), ..session },
                s,
                Action::RenderCommand,
            ),
            Key::Char('q') | Key::Ctrl('c') => if session.modified {
                (SessionView { state: StateView::ConfirmQuit, ..session }, s, Action::AskQuit)
            } else {
                (session, s, Action::Exit)
            },
            _ => (session, s, Action::Ignore),
        },
        StateView::CommandEntry(buffer) => match key {
            Key::Char('\n') => {
                let done = interpret(s, words_of(buffer), clock);
                let next = after_command(session.modified, verb_of_line(words_of(buffer)), done.1);
                (next.0, done.0, next.1)
            },
            Key::Char(c) => (
                SessionView { state: StateView::CommandEntry(buffer.push(c)), ..session },
                s,
                Action::RenderCommand,
            ),
            Key::Backspace => if buffer.len() > 1 {
                (
                    SessionView { state: StateView::CommandEntry(buffer.drop_last()), ..session },
                    s,
                    Action::RenderCommand,
                )
            } else {
                (session, s, Action::Ignore)
            },
            Key::Esc => (
                SessionView { state: StateView::Browse, ..session },
                s,
                Action::Render(Notice::Blank),
            ),
            _ => (session, s, Action::Ignore),
        },
        StateView::ConfirmQuit => match key {
            Key::Char('y') | Key::Char('Y') => (session, s, Action::Exit),
            Key::Char('n') | Key::Char('N') | Key::Esc => (
                SessionView { state: StateView::Browse, ..session },
                s,
                Action::Render(Notice::Blank),
            ),
            _ => (session, s, Action::Ignore),
        },
    }
}

/// The session after a save, and what the caller is to do: a save that
/// succeeded clears the mark of unsaved changes, and nothing else does.
pub open spec fn after_save(session: SessionView, succeeded: bool, then_quit: bool) -> (
    SessionView,
    Action,
) {
    if succeeded {
        (
            SessionView { modified: false, ..session },
            if then_quit {
                Action::Exit
            } else {
                Action::Render(Notice::Saved)
            },
        )
    } else {
        (session, Action::Render(Notice::SaveFailed))
    }
}

impl Session {
    /// While a command is typed, its text starts with the colon.
    pub open spec fn wf(&self) -> bool {
        self@.state matches StateView::CommandEntry(buffer) ==> buffer.len() >= 1 && buffer[0]
            == ':'
    }

    /// A session that shows the task list and has nothing unsaved.
    pub fn new() -> (r: Session)
        ensures
            r@ == (SessionView { state: StateView::Browse, modified: false }),
            r.wf(),
    {
        Session { state: State::Browse, modified: false }
    }

    /// Whether there are unsaved changes.
    pub fn modified(&self) -> (r: bool)
        ensures
            r == self@.modified,
    {
        self.modified
    }

    /// The state that the session is in.
    pub fn state(&self) -> (r: &State)
        ensures
            r@ == self@.state,
    {
        &self.state
    }

    /// Takes one key, changes the session and the store as the key says,
    /// and tells the caller what to do.
    pub fn handle_key(&mut self, todo_list: &mut TodoList, key: Key, clock: &Clock) -> (r: Action)
        requires
            old(self).wf(),
            old(todo_list).wf(),
            old(todo_list)@.len() + 1 < usize::MAX,
        ensures
            final(self).wf(),
            final(todo_list).wf(),
            (final(self)@, final(todo_list)@, r) == step(old(self)@, old(todo_list)@, key, clock@),
    {
        match &mut self.state {
            State::Browse => match key {
                Key::Char(':') => {
                    let mut buffer = String::new();
                    buffer.push(':');
                    self.state = State::CommandEntry(buffer);
                    Action::RenderCommand
                },
                Key::Char('q') | Key::Ctrl('c') => {
                    if self.modified {
                        self.state = State::ConfirmQuit;
                        Action::AskQuit
                    } else {
                        Action::Exit
                    }
                },
                _ => Action::Ignore,
            },
            State::CommandEntry(buffer) => match key {
                Key::Char('\n') => {
                    let words = split_words(buffer.as_str());
                    let verb = if words.len() == 0 || str_eq(words[0].as_str(), ":") {
                        Verb::Unknown
                    } else {
                        parse_verb(words[0].as_str())
                    };
                    let outcome = run_words(todo_list, &words, clock);
                    let was_modified = self.modified;
                    self.state = State::Browse;
                    match verb {
                        Verb::Add | Verb::Edit | Verb::Delete | Verb::Complete => {
                            self.modified = true;
                        },
                        _ => {},
                    }
                    match outcome {
                        Outcome::Quit => if was_modified {
                            Action::WarnUnsaved
                        } else {
                            Action::Exit
                        },
                        Outcome::ForceQuit => Action::Exit,
                        Outcome::Save => Action::Save { then_quit: false },
                        Outcome::SaveQuit => Action::Save { then_quit: true },
                        Outcome::Help => Action::ShowHelp,
                        _ => Action::Render(Notice::Result(outcome)),
                    }
                },
                Key::Char(c) => {
                    buffer.push(c);
                    Action::RenderCommand
                },
                Key::Backspace => {
                    if buffer.as_str().unicode_len() > 1 {
                        buffer.pop();
                        Action::RenderCommand
                    } else {
                        Action::Ignore
                    }
                },
                Key::Esc => {
                    self.state = State::Browse;
                    Action::Render(Notice::Blank)
                },
                _ => Action::Ignore,
            },
            State::ConfirmQuit => match key {
                Key::Char('y') | Key::Char('Y') => Action::Exit,
                Key::Char('n') | Key::Char('N') | Key::Esc => {
                    self.state = State::Browse;
                    Action::Render(Notice::Blank)
                },
                _ => Action::Ignore,
            },
        }
    }

    /// Takes the news of how a save went.
    pub fn save_finished(&mut self, succeeded: bool, then_quit: bool) -> (r: Action)
        requires
            old(self).wf(),
        ensures
            final(self).wf(),
            (final(self)@, r) == after_save(old(self)@, succeeded, then_quit),
    {
        if succeeded {
            self.modified = false;
            if then_quit {
                Action::Exit
            } else {
                Action::Render(Notice::Saved)
            }
        } else {
            Action::Render(Notice::SaveFailed)
        }
    }
}

} // verus!
