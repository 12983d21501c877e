use crate::dates::{parse_date, parsed_date};
use crate::number::{decimal_digits, parse_number, parse_usize, push_decimal};
use crate::order::{next_free_id, renumbered};
use crate::store::{edited, new_task, resolve, Change, TodoList};
use crate::task::{TaskError, TaskView};
use crate::text::{chars_of, join_words, joined, split_words, str_eq, string_of, texts, words_of};
use crate::time::{Date, DateView, Timestamp, TimestampView};
use vstd::prelude::*;

verus! {

/// What a command needs to know of the day it is given on.
pub struct Clock {
    /// The moment at which the command is given.
    pub now: Timestamp,
    /// The day on which it is given.
    pub today: Date,
    /// The day after.
    pub tomorrow: Date,
}

/// The mathematical value of a [`Clock`].
pub struct ClockView {
    pub now: TimestampView,
    pub today: DateView,
    pub tomorrow: DateView,
}

impl View for Clock {
    type V = ClockView;

    open spec fn view(&self) -> ClockView {
        ClockView { now: self.now@, today: self.today@, tomorrow: self.tomorrow@ }
    }
}

/// The command that a command word names.
#[derive(Clone, Copy, Debug, PartialEq, Eq, Structural)]
pub enum Verb {
    /// `q`, `quit`
    Quit,
    /// `q!`
    ForceQuit,
    /// `w`
    Save,
    /// `wq`
    SaveQuit,
    /// `help`
    Help,
    /// `e`, `edit`
    Edit,
    /// `d`, `del`, `delete`
    Delete,
    /// `c`, `complete`
    Complete,
    /// `a`, `add`
    Add,
    /// Any other word.
    Unknown,
}

/// What a command line came to.
#[derive(Clone, Copy, Debug, PartialEq, Eq, Structural)]
pub enum Outcome {
    /// The line holds no command word.
    Empty,
    /// The user asks to leave; whether that is granted is for the session
    /// to say.
    Quit,
    /// The user asks to leave whatever is unsaved.
    ForceQuit,
    /// The user asks to save.
    Save,
    /// The user asks to save and leave.
    SaveQuit,
    /// The user asks for the help page.
    Help,
    /// The command word names no command.
    Unknown,
    /// The command has too few words or too many.
    Usage(Verb),
    /// `-t` is the last word of an `add`.
    MissingDate,
    /// The word in the place of the id is no number.
    InvalidId,
    /// The word in the place of the date is no date.
    BadDate,
    /// The store refused the command.
    Failed(TaskError),
    /// A task was added and now carries this id.
    Added(usize),
    /// The description of the task with this id was replaced.
    Edited(usize),
    /// The due date of the task with this id was set.
    DueDateUpdated(usize),
    /// The task that carried this id was deleted.
    Deleted(usize),
    /// The task that carried this id was completed.
    Completed(usize),
}

impl Outcome {
    /// Whether the command asks for the store to be saved.
    pub open spec fn asks_to_save(self) -> bool {
        self == Outcome::Save || self == Outcome::SaveQuit
    }

    /// Whether the command changed a task or added one.
    pub open spec fn is_change(self) -> bool {
        self is Added || self is Edited || self is DueDateUpdated || self is Deleted
            || self is Completed
    }

    /// The error that the outcome stands for, if it is a failure: a wrong
    /// number of words, a missing date and a bad id are syntax errors, a bad
    /// date a format error, and what the store refused is its own error.
    pub open spec fn error_of(self) -> Option<TaskError> {
        match self {
            Outcome::Usage(_) | Outcome::MissingDate | Outcome::InvalidId => Some(TaskError::Syntax),
            Outcome::BadDate => Some(TaskError::Format),
            Outcome::Failed(e) => Some(e),
            _ => None,
        }
    }

    /// Whether the command asks for the store to be saved.
    pub fn save_performed(&self) -> (r: bool)
        ensures
            r == self.asks_to_save(),
    {
        match self {
            Outcome::Save | Outcome::SaveQuit => true,
            _ => false,
        }
    }

    /// Whether the command changed a task or added one, so that the store
    /// is to be written out.
    pub fn changed_store(&self) -> (r: bool)
        ensures
            r == self.is_change(),
    {
        match self {
            Outcome::Added(_)
            | Outcome::Edited(_)
            | Outcome::DueDateUpdated(_)
            | Outcome::Deleted(_)
            | Outcome::Completed(_) => true,
            _ => false,
        }
    }

    /// The line that the session shows for the outcome.
    pub fn message(&self, detail: &str) -> (r: String)
        ensures
            r@ == message_of(*self, detail@),
    {
        match self {
            Outcome::Empty => "请输入命令".to_owned(),
            Outcome::Unknown => "未知命令".to_owned(),
            Outcome::Usage(Verb::Edit) => "语法错误: :e <id> <新内容> 或 :e <id> -t <日期>".to_owned(),
            Outcome::Usage(Verb::Delete) => "语法错误: :d <id>".to_owned(),
            Outcome::Usage(Verb::Complete) => "语法错误: :c <id>".to_owned(),
            Outcome::Usage(_) => "语法错误: :a <内容> 或 :a <内容> -t <日期>".to_owned(),
            Outcome::MissingDate => "语法错误: 缺少日期参数".to_owned(),
            Outcome::InvalidId => "无效的任务ID".to_owned(),
            Outcome::BadDate => "日期格式错误: ".to_owned().concat(detail),
            Outcome::Failed(_) => "错误: ".to_owned().concat(detail),
            Outcome::Added(_) => "已添加任务: ".to_owned().concat(detail),
            Outcome::Edited(id) => {
                let mut out = "已更新任务 ".to_owned();
                push_decimal(&mut out, *id);
                out
            },
            Outcome::DueDateUpdated(id) => {
                let mut out = "已更新任务 ".to_owned();
                push_decimal(&mut out, *id);
                out.concat(" 的截止日期")
            },
            Outcome::Deleted(id) => {
                let mut out = "已删除任务 ".to_owned();
                push_decimal(&mut out, *id);
                out
            },
            Outcome::Completed(id) => {
                let mut out = "已完成任务 ".to_owned();
                push_decimal(&mut out, *id);
                out
            },
            _ => "".to_owned(),
        }
    }

    /// The error that the outcome stands for, if it is a failure.
    pub fn error(&self) -> (r: Option<TaskError>)
        ensures
            r == self.error_of(),
    {
        match self {
            Outcome::Usage(_) | Outcome::MissingDate | Outcome::InvalidId => Some(TaskError::Syntax),
            Outcome::BadDate => Some(TaskError::Format),
            Outcome::Failed(e) => Some(*e),
            _ => None,
        }
    }
}

/// The line that the session shows for an outcome. `detail` is the
/// description of the task for `Added` and the text of the error for
/// `BadDate` and `Failed`; the requests to quit, save or show help have no
/// line of their own.
pub open spec fn message_of(outcome: Outcome, detail: Seq<char>) -> Seq<char> {
    match outcome {
        Outcome::Empty => "请输入命令"@,
        Outcome::Unknown => "未知命令"@,
        Outcome::Usage(Verb::Edit) => "语法错误: :e <id> <新内容> 或 :e <id> -t <日期>"@,
        Outcome::Usage(Verb::Delete) => "语法错误: :d <id>"@,
        Outcome::Usage(Verb::Complete) => "语法错误: :c <id>"@,
        Outcome::Usage(_) => "语法错误: :a <内容> 或 :a <内容> -t <日期>"@,
        Outcome::MissingDate => "语法错误: 缺少日期参数"@,
        Outcome::InvalidId => "无效的任务ID"@,
        Outcome::BadDate => "日期格式错误: "@ + detail,
        Outcome::Failed(_) => "错误: "@ + detail,
        Outcome::Added(_) => "已添加任务: "@ + detail,
        Outcome::Edited(id) => "已更新任务 "@ + decimal_digits(id as nat),
        Outcome::DueDateUpdated(id) => "已更新任务 "@ + decimal_digits(id as nat) + " 的截止日期"@,
        Outcome::Deleted(id) => "已删除任务 "@ + decimal_digits(id as nat),
        Outcome::Completed(id) => "已完成任务 "@ + decimal_digits(id as nat),
        _ => ""@,
    }
}

/// A command word without the colon that may stand before it.
pub open spec fn bare_word(word: Seq<char>) -> Seq<char> {
    if word.len() > 0 && word[0] == ':' {
        word.skip(1)
    } else {
        word
    }
}

/// The command that a bare command word names.
pub open spec fn verb_named(word: Seq<char>) -> Verb {
    if word == "q"@ || word == "quit"@ {
        Verb::Quit
    } else if word == "q!"@ {
        Verb::ForceQuit
    } else if word == "w"@ {
        Verb::Save
    } else if word == "wq"@ {
        Verb::SaveQuit
    } else if word == "help"@ {
        Verb::Help
    } else if word == "e"@ || word == "edit"@ {
        Verb::Edit
    } else if word == "d"@ || word == "del"@ || word == "delete"@ {
        Verb::Delete
    } else if word == "c"@ || word == "complete"@ {
        Verb::Complete
    } else if word == "a"@ || word == "add"@ {
        Verb::Add
    } else {
        Verb::Unknown
    }
}

/// The command that a command word names, with or without its colon.
pub open spec fn verb_of(word: Seq<char>) -> Verb {
    verb_named(bare_word(word))
}

/// The place of the first word `-t`, or the number of words where none is
/// `-t`.
pub open spec fn first_flag(words: Seq<Seq<char>>) -> nat
    decreases words.len(),
{
    if words.len() == 0 || words[0] == "-t"@ {
        0
    } else {
        1 + first_flag(words.drop_first())
    }
}

/// What `edit` comes to: `edit <id> -t <date>` sets the due date, `edit <id>
/// <words>` replaces the description by the words.
pub open spec fn edit_result(s: Seq<TaskView>, words: Seq<Seq<char>>, clock: ClockView) -> (
    Seq<TaskView>,
    Outcome,
) {
    if words.len() < 3 {
        (s, Outcome::Usage(Verb::Edit))
    } else {
        match (parse_number(words[1], usize::MAX as nat), resolve(s, words[1])) {
            (None, _) => (s, Outcome::InvalidId),
            (Some(id), found) => if words[2] == "-t"@ && words.len() >= 4 {
                match (parsed_date(words[3], clock.today, clock.tomorrow), found) {
                    (Err(_), _) => (s, Outcome::BadDate),
                    (Ok(_), None) => (s, Outcome::Failed(TaskError::NotFound)),
                    (Ok(date), Some(i)) => (
                        s.update(i, edited(s[i], None, Some(date))),
                        Outcome::DueDateUpdated(id as usize),
                    ),
                }
            } else {
                match found {
                    None => (s, Outcome::Failed(TaskError::NotFound)),
                    Some(i) => (
                        s.update(
                            i,
                            edited(s[i], Some(joined(words.subrange(2, words.len() as int))), None),
                        ),
                        Outcome::Edited(id as usize),
                    ),
                }
            }
        }
    }
}

/// What `delete <id>` comes to.
pub open spec fn delete_result(s: Seq<TaskView>, words: Seq<Seq<char>>) -> (Seq<TaskView>, Outcome) {
    if words.len() != 2 {
        (s, Outcome::Usage(Verb::Delete))
    } else {
        match (parse_number(words[1], usize::MAX as nat), resolve(s, words[1])) {
            (None, _) => (s, Outcome::InvalidId),
            (Some(_), None) => (s, Outcome::Failed(TaskError::NotFound)),
            (Some(id), Some(_)) => (
                renumbered(Change::Remove.apply_to(s, words[1])),
                Outcome::Deleted(id as usize),
            ),
        }
    }
}

/// What `complete <id>` comes to.
pub open spec fn complete_result(s: Seq<TaskView>, words: Seq<Seq<char>>) -> (
    Seq<TaskView>,
    Outcome,
) {
    if words.len() != 2 {
        (s, Outcome::Usage(Verb::Complete))
    } else {
        match (parse_number(words[1], usize::MAX as nat), Change::Complete.target(s, words[1])) {
            (None, _) => (s, Outcome::InvalidId),
            (Some(_), None) => (s, Outcome::Failed(TaskError::InvalidState)),
            (Some(id), Some(_)) => (
                renumbered(Change::Complete.apply_to(s, words[1])),
                Outcome::Completed(id as usize),
            ),
        }
    }
}

/// The store after a task with the given description and due date was
/// added at the moment `now`.
pub open spec fn with_added(
    s: Seq<TaskView>,
    description: Seq<char>,
    due_date: Option<DateView>,
    now: TimestampView,
) -> Seq<TaskView> {
    renumbered(s.push(new_task(next_free_id(s), description, due_date, now)))
}

/// What `add <words>` and `add <words> -t <date>` come to.
pub open spec fn add_result(s: Seq<TaskView>, words: Seq<Seq<char>>, clock: ClockView) -> (
    Seq<TaskView>,
    Outcome,
) {
    let flag = first_flag(words) as int;
    if words.len() < 2 {
        (s, Outcome::Usage(Verb::Add))
    } else if flag < words.len() {
        if flag + 1 >= words.len() {
            (s, Outcome::MissingDate)
        } else {
            match parsed_date(words[flag + 1], clock.today, clock.tomorrow) {
                Err(_) => (s, Outcome::BadDate),
                Ok(date) => {
                    let after = with_added(
                        s,
                        joined(words.subrange(1, flag)),
                        Some(date),
                        clock.now,
                    );
                    (after, Outcome::Added(after.last().id as usize))
                },
            }
        }
    } else {
        let after = with_added(s, joined(words.subrange(1, words.len() as int)), None, clock.now);
        (after, Outcome::Added(after.last().id as usize))
    }
}

/// What a command line of the given words comes to: the store after it and
/// its outcome.
pub open spec fn interpret(s: Seq<TaskView>, words: Seq<Seq<char>>, clock: ClockView) -> (
    Seq<TaskView>,
    Outcome,
) {
    if words.len() == 0 || words[0] == ":"@ {
        (s, Outcome::Empty)
    } else {
        match verb_of(words[0]) {
            Verb::Quit => (s, Outcome::Quit),
            Verb::ForceQuit => (s, Outcome::ForceQuit),
            Verb::Save => (s, Outcome::Save),
            Verb::SaveQuit => (s, Outcome::SaveQuit),
            Verb::Help => (s, Outcome::Help),
            Verb::Edit => edit_result(s, words, clock),
            Verb::Delete => delete_result(s, words),
            Verb::Complete => complete_result(s, words),
            Verb::Add => add_result(s, words, clock),
            Verb::Unknown => (s, Outcome::Unknown),
        }
    }
}

/// The command that a command word names, with or without its colon.
pub fn parse_verb(word: &str) -> (r: Verb)
    ensures
        r == verb_of(word@),
{
    let chars = chars_of(word);
    let from: usize = if chars.len() > 0 && chars[0] == ':' {
        1
    } else {
        0
    };
    let bare = string_of(&chars, from, chars.len());
    assert(bare@ == bare_word(word@));
    let w = bare.as_str();
    if str_eq(w, "q") || str_eq(w, "quit") {
        Verb::Quit
    } else if str_eq(w, "q!") {
        Verb::ForceQuit
    } else if str_eq(w, "w") {
        Verb::Save
    } else if str_eq(w, "wq") {
        Verb::SaveQuit
    } else if str_eq(w, "help") {
        Verb::Help
    } else if str_eq(w, "e") || str_eq(w, "edit") {
        Verb::Edit
    } else if str_eq(w, "d") || str_eq(w, "del") || str_eq(w, "delete") {
        Verb::Delete
    } else if str_eq(w, "c") || str_eq(w, "complete") {
        Verb::Complete
    } else if str_eq(w, "a") || str_eq(w, "add") {
        Verb::Add
    } else {
        Verb::Unknown
    }
}

/// The place of the first word `-t` among the words.
fn find_flag(words: &Vec<String>) -> (r: usize)
    ensures
        r == first_flag(texts(words@)),
        r <= words.len(),
{
    let ghost all = texts(words@);
    let mut k: usize = 0;
    assert(all.skip(0) == all);
    while k < words.len()
        invariant
            k <= words.len(),
            all == texts(words@),
            first_flag(all) == k + first_flag(all.skip(k as int)),
        decreases words.len() - k,
    {
        let ghost rest = all.skip(k as int);
        assert(rest[0] == words@[k as int]@);
        if str_eq(words[k].as_str(), "-t") {
            return k;
        }
        assert(rest.drop_first() == all.skip(k + 1));
        k += 1;
    }
    assert(all.skip(k as int).len() == 0);
    k
}

fn run_edit(todo_list: &mut TodoList, words: &Vec<String>, clock: &Clock) -> (r: Outcome)
    requires
        old(todo_list).wf(),
    ensures
        final(todo_list).wf(),
        (final(todo_list)@, r) == edit_result(old(todo_list)@, texts(words@), clock@),
{
    if words.len() < 3 {
        return Outcome::Usage(Verb::Edit);
    }
    let id = match parse_usize(words[1].as_str()) {
        Some(id) => id,
        None => {
            return Outcome::InvalidId;
        },
    };
    if str_eq(words[2].as_str(), "-t") && words.len() >= 4 {
        let date = match parse_date(words[3].as_str(), clock.today, clock.tomorrow) {
            Ok(date) => date,
            Err(_) => {
                return Outcome::BadDate;
            },
        };
        match todo_list.edit_task(words[1].as_str(), None, Some(date)) {
            Ok(_) => Outcome::DueDateUpdated(id),
            Err(e) => Outcome::Failed(e),
        }
    } else {
        let content = join_words(words, 2, words.len());
        match todo_list.edit_task(words[1].as_str(), Some(content.as_str()), None) {
            Ok(_) => Outcome::Edited(id),
            Err(e) => Outcome::Failed(e),
        }
    }
}

fn run_delete(todo_list: &mut TodoList, words: &Vec<String>) -> (r: Outcome)
    requires
        old(todo_list).wf(),
    ensures
        final(todo_list).wf(),
        (final(todo_list)@, r) == delete_result(old(todo_list)@, texts(words@)),
{
    if words.len() != 2 {
        return Outcome::Usage(Verb::Delete);
    }
    let id = match parse_usize(words[1].as_str()) {
        Some(id) => id,
        None => {
            return Outcome::InvalidId;
        },
    };
    match todo_list.remove_task(words[1].as_str()) {
        Ok(_) => Outcome::Deleted(id),
        Err(e) => Outcome::Failed(e),
    }
}

fn run_complete(todo_list: &mut TodoList, words: &Vec<String>) -> (r: Outcome)
    requires
        old(todo_list).wf(),
    ensures
        final(todo_list).wf(),
        (final(todo_list)@, r) == complete_result(old(todo_list)@, texts(words@)),
{
    if words.len() != 2 {
        return Outcome::Usage(Verb::Complete);
    }
    let id = match parse_usize(words[1].as_str()) {
        Some(id) => id,
        None => {
            return Outcome::InvalidId;
        },
    };
    match todo_list.mark_done(words[1].as_str()) {
        Ok(_) => Outcome::Completed(id),
        Err(e) => Outcome::Failed(e),
    }
}

/// The word `-t` names no command to add.
proof fn lemma_flag_is_no_add(word: Seq<char>)
    requires
        verb_of(word) == Verb::Add,
    ensures
        word != "-t"@,
{
    reveal_strlit("-t");
    reveal_strlit("a");
    reveal_strlit("add");
    if word == "-t"@ {
        assert(bare_word(word) == word);
        assert(word.len() == 2 && word[0] == '-');
    }
}

fn run_add(todo_list: &mut TodoList, words: &Vec<String>, clock: &Clock) -> (r: Outcome)
    requires
        old(todo_list).wf(),
        old(todo_list)@.len() + 1 < usize::MAX,
        words.len() > 0,
        verb_of(words[0]@) == Verb::Add,
    ensures
        final(todo_list).wf(),
        (final(todo_list)@, r) == add_result(old(todo_list)@, texts(words@), clock@),
{
    if words.len() < 2 {
        return Outcome::Usage(Verb::Add);
    }
    let flag = find_flag(words);
    proof {
        lemma_flag_is_no_add(words[0]@);
        assert(texts(words@)[0] == words[0]@);
    }
    let (content, due_date) = if flag < words.len() {
        if flag + 1 >= words.len() {
            return Outcome::MissingDate;
        }
        let date = match parse_date(words[flag + 1].as_str(), clock.today, clock.tomorrow) {
            Ok(date) => date,
            Err(_) => {
                return Outcome::BadDate;
            },
        };
        (join_words(words, 1, flag), Some(date))
    } else {
        (join_words(words, 1, words.len()), None)
    };
    let task = todo_list.add_task(content, due_date, clock.now);
    Outcome::Added(task.id)
}

/// Carries out a command line that is already split into its words.
pub fn run_words(todo_list: &mut TodoList, words: &Vec<String>, clock: &Clock) -> (r: Outcome)
    requires
        old(todo_list).wf(),
        old(todo_list)@.len() + 1 < usize::MAX,
    ensures
        final(todo_list).wf(),
        (final(todo_list)@, r) == interpret(old(todo_list)@, texts(words@), clock@),
{
    if words.len() == 0 || str_eq(words[0].as_str(), ":") {
        return Outcome::Empty;
    }
    match parse_verb(words[0].as_str()) {
        Verb::Quit => Outcome::Quit,
        Verb::ForceQuit => Outcome::ForceQuit,
        Verb::Save => Outcome::Save,
        Verb::SaveQuit => Outcome::SaveQuit,
        Verb::Help => Outcome::Help,
        Verb::Edit => run_edit(todo_list, words, clock),
        Verb::Delete => run_delete(todo_list, words),
        Verb::Complete => run_complete(todo_list, words),
        Verb::Add => run_add(todo_list, words, clock),
        Verb::Unknown => Outcome::Unknown,
    }
}

/// Carries out one command line of the interactive session.
///
/// The line is split at white space; its first word, with or without a
/// colon before it, names the command. The store is changed as the command
/// says and renumbered; a command that fails leaves it as it was. Saving,
/// leaving and the help page are not done here: the outcome tells the
/// caller that they are asked for.
pub fn execute_command(todo_list: &mut TodoList, command: &str, clock: &Clock) -> (r: Outcome)
    requires
        old(todo_list).wf(),
        old(todo_list)@.len() + 1 < usize::MAX,
    ensures
        final(todo_list).wf(),
        (final(todo_list)@, r) == interpret(old(todo_list)@, words_of(command@), clock@),
{
    let words = split_words(command);
    run_words(todo_list, &words, clock)
}

} // verus!
