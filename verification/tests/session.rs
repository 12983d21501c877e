use jodo::command::{Clock, Outcome, Verb};
use jodo::session::{Action, Key, Notice, Session, State};
use jodo::store::TodoList;
use jodo::task::TaskError;
use jodo::time::{Date, Timestamp};

fn clock() -> Clock {
    Clock {
        now: Timestamp::new(1_715_767_200, 0).unwrap(),
        today: Date::new(2024, 5, 15).unwrap(),
        tomorrow: Date::new(2024, 5, 16).unwrap(),
    }
}

fn list_of(descriptions: &[&str]) -> TodoList {
    let mut list = TodoList::new(Vec::new());
    for d in descriptions {
        list.add_task(d.to_string(), None, Timestamp::new(0, 0).unwrap());
    }
    list
}

fn press(session: &mut Session, list: &mut TodoList, key: Key) -> Action {
    session.handle_key(list, key, &clock())
}

/// Types a command line and presses enter; gives what the enter key came to.
fn command(session: &mut Session, list: &mut TodoList, line: &str) -> Action {
    let mut keys = line.chars();
    assert_eq!(keys.next(), Some(':'));
    assert_eq!(press(session, list, Key::Char(':')), Action::RenderCommand);
    for c in keys {
        assert_eq!(press(session, list, Key::Char(c)), Action::RenderCommand);
    }
    press(session, list, Key::Char('\n'))
}

fn buffer(session: &Session) -> Option<String> {
    match session.state() {
        State::CommandEntry(text) => Some(text.clone()),
        _ => None,
    }
}

fn is_browse(session: &Session) -> bool {
    matches!(session.state(), State::Browse)
}

fn is_confirm(session: &Session) -> bool {
    matches!(session.state(), State::ConfirmQuit)
}

#[test]
fn new_session_browses_with_nothing_unsaved() {
    let session = Session::new();
    assert!(is_browse(&session));
    assert!(!session.modified());
}

#[test]
fn colon_opens_the_command_line() {
    let mut session = Session::new();
    let mut list = list_of(&[]);
    assert_eq!(press(&mut session, &mut list, Key::Char(':')), Action::RenderCommand);
    assert_eq!(buffer(&session), Some(":".to_string()));
}

#[test]
fn browse_ignores_other_keys() {
    let mut session = Session::new();
    let mut list = list_of(&["a"]);
    for key in [Key::Char('x'), Key::Char('\n'), Key::Backspace, Key::Esc, Key::Other,
        Key::Ctrl('q'), Key::Char('y'), Key::Char('Q')]
    {
        assert_eq!(press(&mut session, &mut list, key), Action::Ignore);
        assert!(is_browse(&session));
    }
}

#[test]
fn quit_key_leaves_at_once_when_nothing_is_unsaved() {
    let mut list = list_of(&[]);
    let mut session = Session::new();
    assert_eq!(press(&mut session, &mut list, Key::Char('q')), Action::Exit);
    let mut session = Session::new();
    assert_eq!(press(&mut session, &mut list, Key::Ctrl('c')), Action::Exit);
}

#[test]
fn quit_key_asks_when_something_is_unsaved() {
    let mut list = list_of(&[]);
    let mut session = Session::new();
    assert_eq!(
        command(&mut session, &mut list, ":a x"),
        Action::Render(Notice::Result(Outcome::Added(1)))
    );
    assert!(session.modified());
    assert_eq!(press(&mut session, &mut list, Key::Char('q')), Action::AskQuit);
    assert!(is_confirm(&session));
    assert_eq!(press(&mut session, &mut list, Key::Char('n')), Action::Render(Notice::Blank));
    assert!(is_browse(&session));
    assert_eq!(press(&mut session, &mut list, Key::Ctrl('c')), Action::AskQuit);
    assert!(is_confirm(&session));
    assert!(session.modified());
}

#[test]
fn confirm_quit_answers() {
    for (key, action, browse) in [
        (Key::Char('y'), Action::Exit, false),
        (Key::Char('Y'), Action::Exit, false),
        (Key::Char('n'), Action::Render(Notice::Blank), true),
        (Key::Char('N'), Action::Render(Notice::Blank), true),
        (Key::Esc, Action::Render(Notice::Blank), true),
        (Key::Char('x'), Action::Ignore, false),
        (Key::Char('\n'), Action::Ignore, false),
        (Key::Backspace, Action::Ignore, false),
        (Key::Other, Action::Ignore, false),
        (Key::Char('q'), Action::Ignore, false),
        (Key::Ctrl('c'), Action::Ignore, false),
    ] {
        let mut list = list_of(&["a"]);
        let mut session = Session::new();
        command(&mut session, &mut list, ":d 1");
        assert_eq!(press(&mut session, &mut list, Key::Char('q')), Action::AskQuit);
        assert_eq!(press(&mut session, &mut list, key), action);
        assert_eq!(is_browse(&session), browse);
        assert_eq!(is_confirm(&session), !browse);
        assert!(session.modified());
    }
}

#[test]
fn typing_fills_the_buffer() {
    let mut session = Session::new();
    let mut list = list_of(&[]);
    press(&mut session, &mut list, Key::Char(':'));
    for c in "a \u{4e2d} :q".chars() {
        assert_eq!(press(&mut session, &mut list, Key::Char(c)), Action::RenderCommand);
    }
    assert_eq!(buffer(&session), Some(":a \u{4e2d} :q".to_string()));
    assert_eq!(press(&mut session, &mut list, Key::Other), Action::Ignore);
    assert_eq!(press(&mut session, &mut list, Key::Ctrl('c')), Action::Ignore);
    assert_eq!(buffer(&session), Some(":a \u{4e2d} :q".to_string()));
}

#[test]
fn backspace_stops_at_the_colon() {
    let mut session = Session::new();
    let mut list = list_of(&[]);
    press(&mut session, &mut list, Key::Char(':'));
    press(&mut session, &mut list, Key::Char('a'));
    press(&mut session, &mut list, Key::Char('\u{4e2d}'));
    assert_eq!(press(&mut session, &mut list, Key::Backspace), Action::RenderCommand);
    assert_eq!(buffer(&session), Some(":a".to_string()));
    assert_eq!(press(&mut session, &mut list, Key::Backspace), Action::RenderCommand);
    assert_eq!(buffer(&session), Some(":".to_string()));
    assert_eq!(press(&mut session, &mut list, Key::Backspace), Action::Ignore);
    assert_eq!(buffer(&session), Some(":".to_string()));
}

#[test]
fn escape_drops_the_command() {
    let mut session = Session::new();
    let mut list = list_of(&["a"]);
    press(&mut session, &mut list, Key::Char(':'));
    for c in "d 1".chars() {
        press(&mut session, &mut list, Key::Char(c));
    }
    assert_eq!(press(&mut session, &mut list, Key::Esc), Action::Render(Notice::Blank));
    assert!(is_browse(&session));
    assert!(!session.modified());
    assert!(list.get_task("1").is_some());
    press(&mut session, &mut list, Key::Char(':'));
    assert_eq!(buffer(&session), Some(":".to_string()));
}

#[test]
fn enter_carries_out_the_command() {
    let mut session = Session::new();
    let mut list = list_of(&["a", "b"]);
    assert_eq!(
        command(&mut session, &mut list, ":c 1"),
        Action::Render(Notice::Result(Outcome::Completed(1)))
    );
    assert!(is_browse(&session));
    assert!(session.modified());
    assert_eq!(list.get_task("2c").unwrap().description, "a");
}

#[test]
fn every_changing_command_marks_the_session() {
    for line in [":a x", ":add x", ":e 1 y", ":edit 1 y", ":d 1", ":del 1", ":delete 1", ":c 1",
        ":complete 1"]
    {
        let mut session = Session::new();
        let mut list = list_of(&["a"]);
        command(&mut session, &mut list, line);
        assert!(session.modified());
    }
}

#[test]
fn a_changing_command_that_fails_marks_the_session_too() {
    let mut session = Session::new();
    let mut list = list_of(&["a"]);
    assert_eq!(
        command(&mut session, &mut list, ":d 9"),
        Action::Render(Notice::Result(Outcome::Failed(TaskError::NotFound)))
    );
    assert!(session.modified());
    let mut session = Session::new();
    assert_eq!(
        command(&mut session, &mut list, ":e"),
        Action::Render(Notice::Result(Outcome::Usage(Verb::Edit)))
    );
    assert!(session.modified());
}

#[test]
fn other_commands_do_not_mark_the_session() {
    for (line, action) in [
        (":", Action::Render(Notice::Result(Outcome::Empty))),
        (":x", Action::Render(Notice::Result(Outcome::Unknown))),
        (":help", Action::ShowHelp),
        (":w", Action::Save { then_quit: false }),
        (":wq", Action::Save { then_quit: true }),
        (":q", Action::Exit),
        (":quit", Action::Exit),
        (":q!", Action::Exit),
    ] {
        let mut session = Session::new();
        let mut list = list_of(&["a"]);
        assert_eq!(command(&mut session, &mut list, line), action);
        assert!(!session.modified());
        assert!(is_browse(&session));
    }
}

#[test]
fn quit_command_is_refused_while_something_is_unsaved() {
    let mut session = Session::new();
    let mut list = list_of(&["a"]);
    command(&mut session, &mut list, ":d 1");
    assert_eq!(command(&mut session, &mut list, ":q"), Action::WarnUnsaved);
    assert!(is_browse(&session));
    assert!(session.modified());
    assert_eq!(command(&mut session, &mut list, ":quit"), Action::WarnUnsaved);
    assert!(session.modified());
}

#[test]
fn forced_quit_leaves_whatever_is_unsaved() {
    let mut session = Session::new();
    let mut list = list_of(&["a"]);
    command(&mut session, &mut list, ":d 1");
    assert_eq!(command(&mut session, &mut list, ":q!"), Action::Exit);
    assert!(session.modified());
}

#[test]
fn save_that_succeeds_clears_the_mark() {
    let mut session = Session::new();
    let mut list = list_of(&["a"]);
    command(&mut session, &mut list, ":d 1");
    assert_eq!(command(&mut session, &mut list, ":w"), Action::Save { then_quit: false });
    assert!(session.modified());
    assert_eq!(session.save_finished(true, false), Action::Render(Notice::Saved));
    assert!(!session.modified());
    assert_eq!(command(&mut session, &mut list, ":q"), Action::Exit);
}

#[test]
fn save_that_fails_keeps_the_mark() {
    let mut session = Session::new();
    let mut list = list_of(&["a"]);
    command(&mut session, &mut list, ":d 1");
    assert_eq!(command(&mut session, &mut list, ":wq"), Action::Save { then_quit: true });
    assert_eq!(session.save_finished(false, true), Action::Render(Notice::SaveFailed));
    assert!(session.modified());
    assert!(is_browse(&session));
    assert_eq!(command(&mut session, &mut list, ":q"), Action::WarnUnsaved);
}

#[test]
fn save_and_quit_leaves_after_the_save() {
    let mut session = Session::new();
    let mut list = list_of(&["a"]);
    command(&mut session, &mut list, ":d 1");
    assert_eq!(command(&mut session, &mut list, ":wq"), Action::Save { then_quit: true });
    assert_eq!(session.save_finished(true, true), Action::Exit);
    assert!(!session.modified());
}

#[test]
fn bad_commands_never_end_the_session() {
    let mut session = Session::new();
    let mut list = list_of(&["a"]);
    for line in [":", ":zzz", ":e", ":e x y", ":d", ":d 1 2", ":c x", ":a", ":a x -t", ":a x -t ??",
        ":e 1 -t ??", ":c 9"]
    {
        let action = command(&mut session, &mut list, line);
        assert!(matches!(action, Action::Render(Notice::Result(_))));
        assert!(is_browse(&session));
    }
    assert_eq!(list.get_task("1").unwrap().description, "a");
}
