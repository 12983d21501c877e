use crate::lang::Language;
use crate::number::{decimal_digits, push_decimal};
use crate::text::texts;
use vstd::prelude::*;

verus! {

/// The text of a language among three.
pub open spec fn pick(
    lang: Language,
    english: Seq<char>,
    japanese: Seq<char>,
    chinese: Seq<char>,
) -> Seq<char> {
    match lang {
        Language::English => english,
        Language::Japanese => japanese,
        Language::Chinese => chinese,
    }
}

/// Texts put together with `separator` between each two.
pub open spec fn joined_by(items: Seq<Seq<char>>, separator: Seq<char>) -> Seq<char>
    decreases items.len(),
{
    if items.len() == 0 {
        Seq::empty()
    } else if items.len() == 1 {
        items[0]
    } else {
        joined_by(items.drop_last(), separator) + separator + items.last()
    }
}

/// The decimal digits of each of a list of numbers.
pub open spec fn number_texts(numbers: Seq<usize>) -> Seq<Seq<char>> {
    numbers.map_values(|n: usize| decimal_digits(n as nat))
}

/// The text of a language among three.
pub fn pick_text(lang: Language, english: &str, japanese: &str, chinese: &str) -> (r: String)
    ensures
        r@ == pick(lang, english@, japanese@, chinese@),
{
    match lang {
        Language::English => english.to_owned(),
        Language::Japanese => japanese.to_owned(),
        Language::Chinese => chinese.to_owned(),
    }
}

/// A text between two others.
pub fn around(before: &str, text: &str, after: &str) -> (r: String)
    ensures
        r@ == before@ + text@ + after@,
{
    before.to_owned().concat(text).concat(after)
}

/// The ids of a list with a comma and a space between each two.
pub fn id_list(ids: &[String]) -> (r: String)
    ensures
        r@ == joined_by(texts(ids@), ", "@),
{
    let ghost all = texts(ids@);
    let mut out = String::new();
    let mut k: usize = 0;
    assert(all.take(0) =~= Seq::<Seq<char>>::empty());
    while k < ids.len()
        invariant
            k <= ids.len(),
            all == texts(ids@),
            out@ == joined_by(all.take(k as int), ", "@),
        decreases ids.len() - k,
    {
        let ghost next = all.take(k + 1);
        assert(next.drop_last() == all.take(k as int));
        assert(next.last() == ids@[k as int]@);
        if k > 0 {
            out.append(", ");
        }
        out.append(ids[k].as_str());
        k += 1;
    }
    assert(all.take(k as int) == all);
    out
}

/// The numbers of a list with a comma and a space between each two.
pub fn number_list(numbers: &[usize]) -> (r: String)
    ensures
        r@ == joined_by(number_texts(numbers@), ", "@),
{
    let ghost all = number_texts(numbers@);
    let mut out = String::new();
    let mut k: usize = 0;
    assert(all.take(0) =~= Seq::<Seq<char>>::empty());
    while k < numbers.len()
        invariant
            k <= numbers.len(),
            all == number_texts(numbers@),
            out@ == joined_by(all.take(k as int), ", "@),
        decreases numbers.len() - k,
    {
        let ghost next = all.take(k + 1);
        assert(next.drop_last() == all.take(k as int));
        assert(next.last() == decimal_digits(numbers@[k as int] as nat));
        if k > 0 {
            out.append(", ");
        }
        push_decimal(&mut out, numbers[k]);
        k += 1;
    }
    assert(all.take(k as int) == all);
    out
}

/// The words of the program in the language of the user.
#[derive(Clone, Copy, Debug, PartialEq, Eq, Structural)]
pub struct Messages {
    pub lang: Language,
}

impl Messages {
    /// The words of the program in `lang`.
    pub fn new(lang: Language) -> (r: Messages)
        ensures
            r.lang == lang,
    {
        Messages { lang }
    }

    /// The line `Task "<task>" added`.
    pub fn task_added(&self, task: &str) -> (r: String)
        ensures
            r@ == pick(
                self.lang,
                "Task \""@ + task@ + "\" added"@,
                "タスク \""@ + task@ + "\" が追加されました"@,
                "任务 \""@ + task@ + "\" 已添加"@,
            ),
    {
        match self.lang {
            Language::English => around("Task \"", task, "\" added"),
            Language::Japanese => around("タスク \"", task, "\" が追加されました"),
            Language::Chinese => around("任务 \"", task, "\" 已添加"),
        }
    }

    /// The words for `Due date`.
    pub fn due_date(&self) -> (r: String)
        ensures
            r@ == pick(self.lang, "Due date"@, "期限"@, "截止日期"@),
    {
        pick_text(self.lang, "Due date", "期限", "截止日期")
    }

    /// The words for `Incomplete Tasks:`.
    pub fn incomplete_tasks(&self) -> (r: String)
        ensures
            r@ == pick(self.lang, "Incomplete Tasks:"@, "未完了のタスク:"@, "未完成任务:"@),
    {
        pick_text(self.lang, "Incomplete Tasks:", "未完了のタスク:", "未完成任务:")
    }

    /// The words for `Completed Tasks:`.
    pub fn completed_tasks(&self) -> (r: String)
        ensures
            r@ == pick(self.lang, "Completed Tasks:"@, "完了したタスク:"@, "已完成任务:"@),
    {
        pick_text(self.lang, "Completed Tasks:", "完了したタスク:", "已完成任务:")
    }

    /// The words for `None`.
    pub fn none(&self) -> (r: String)
        ensures
            r@ == pick(self.lang, "None"@, "なし"@, "无"@),
    {
        pick_text(self.lang, "None", "なし", "无")
    }

    /// The words for `ID`.
    pub fn id(&self) -> (r: String)
        ensures
            r@ == pick(self.lang, "ID"@, "ID"@, "ID"@),
    {
        pick_text(self.lang, "ID", "ID", "ID")
    }

    /// The words for `Description`.
    pub fn description(&self) -> (r: String)
        ensures
            r@ == pick(self.lang, "Description"@, "説明"@, "描述"@),
    {
        pick_text(self.lang, "Description", "説明", "描述")
    }

    /// The line `Error: <msg>`.
    pub fn error(&self, msg: &str) -> (r: String)
        ensures
            r@ == pick(
                self.lang,
                "Error: "@ + msg@ + ""@,
                "エラー: "@ + msg@ + ""@,
                "错误: "@ + msg@ + ""@,
            ),
    {
        match self.lang {
            Language::English => around("Error: ", msg, ""),
            Language::Japanese => around("エラー: ", msg, ""),
            Language::Chinese => around("错误: ", msg, ""),
        }
    }

    /// The line `Content of task <id> has been updated`.
    pub fn content_updated(&self, id: &str) -> (r: String)
        ensures
            r@ == pick(
                self.lang,
                "Content of task "@ + id@ + " has been updated"@,
                "タスク "@ + id@ + " の内容が更新されました"@,
                "已更新任务 "@ + id@ + " 的内容"@,
            ),
    {
        match self.lang {
            Language::English => around("Content of task ", id, " has been updated"),
            Language::Japanese => around("タスク ", id, " の内容が更新されました"),
            Language::Chinese => around("已更新任务 ", id, " 的内容"),
        }
    }

    /// The line `Due date of task <id> has been updated`.
    pub fn due_date_updated(&self, id: &str) -> (r: String)
        ensures
            r@ == pick(
                self.lang,
                "Due date of task "@ + id@ + " has been updated"@,
                "タスク "@ + id@ + " の期限が更新されました"@,
                "已更新任务 "@ + id@ + " 的截止日期"@,
            ),
    {
        match self.lang {
            Language::English => around("Due date of task ", id, " has been updated"),
            Language::Japanese => around("タスク ", id, " の期限が更新されました"),
            Language::Chinese => around("已更新任务 ", id, " 的截止日期"),
        }
    }

    /// The line `Task <id> marked as completed`.
    pub fn task_completed(&self, id: &str) -> (r: String)
        ensures
            r@ == pick(
                self.lang,
                "Task "@ + id@ + " marked as completed"@,
                "タスク "@ + id@ + " が完了としてマークされました"@,
                "任务 "@ + id@ + " 已标记为完成"@,
            ),
    {
        match self.lang {
            Language::English => around("Task ", id, " marked as completed"),
            Language::Japanese => around("タスク ", id, " が完了としてマークされました"),
            Language::Chinese => around("任务 ", id, " 已标记为完成"),
        }
    }

    /// The line `Task <id> marked as incomplete`.
    pub fn task_uncompleted(&self, id: &str) -> (r: String)
        ensures
            r@ == pick(
                self.lang,
                "Task "@ + id@ + " marked as incomplete"@,
                "タスク "@ + id@ + " が未完了としてマークされました"@,
                "任务 "@ + id@ + " 已标记为未完成"@,
            ),
    {
        match self.lang {
            Language::English => around("Task ", id, " marked as incomplete"),
            Language::Japanese => around("タスク ", id, " が未完了としてマークされました"),
            Language::Chinese => around("任务 ", id, " 已标记为未完成"),
        }
    }

    /// The line `Task <id> marked as important`.
    pub fn task_starred(&self, id: &str) -> (r: String)
        ensures
            r@ == pick(
                self.lang,
                "Task "@ + id@ + " marked as important"@,
                "タスク "@ + id@ + " が重要としてマークされました"@,
                "任务 "@ + id@ + " 已标记为重要"@,
            ),
    {
        match self.lang {
            Language::English => around("Task ", id, " marked as important"),
            Language::Japanese => around("タスク ", id, " が重要としてマークされました"),
            Language::Chinese => around("任务 ", id, " 已标记为重要"),
        }
    }

    /// The line `Task <id> unmarked as important`.
    pub fn task_unstarred(&self, id: &str) -> (r: String)
        ensures
            r@ == pick(
                self.lang,
                "Task "@ + id@ + " unmarked as important"@,
                "タスク "@ + id@ + " の重要マークが解除されました"@,
                "任务 "@ + id@ + " 已取消重要标记"@,
            ),
    {
        match self.lang {
            Language::English => around("Task ", id, " unmarked as important"),
            Language::Japanese => around("タスク ", id, " の重要マークが解除されました"),
            Language::Chinese => around("任务 ", id, " 已取消重要标记"),
        }
    }

    /// The line `Task <id> deleted`.
    pub fn task_deleted(&self, id: &str) -> (r: String)
        ensures
            r@ == pick(
                self.lang,
                "Task "@ + id@ + " deleted"@,
                "タスク "@ + id@ + " が削除されました"@,
                "任务 "@ + id@ + " 已删除"@,
            ),
    {
        match self.lang {
            Language::English => around("Task ", id, " deleted"),
            Language::Japanese => around("タスク ", id, " が削除されました"),
            Language::Chinese => around("任务 ", id, " 已删除"),
        }
    }

    /// The words for `Task does not exist`.
    pub fn task_not_exist(&self) -> (r: &'static str)
        ensures
            r@ == pick(self.lang, "Task does not exist"@, "タスクが存在しません"@, "任务不存在"@),
    {
        match self.lang {
            Language::English => "Task does not exist",
            Language::Japanese => "タスクが存在しません",
            Language::Chinese => "任务不存在",
        }
    }

    /// The words for `Task does not exist or is already completed`.
    pub fn task_already_completed(&self) -> (r: &'static str)
        ensures
            r@ == pick(
                self.lang,
                "Task does not exist or is already completed"@,
                "タスクが存在しないか、すでに完了しています"@,
                "任务不存在或已完成"@,
            ),
    {
        match self.lang {
            Language::English => "Task does not exist or is already completed",
            Language::Japanese => "タスクが存在しないか、すでに完了しています",
            Language::Chinese => "任务不存在或已完成",
        }
    }

    /// The words for `Task does not exist or is not completed`.
    pub fn task_not_completed(&self) -> (r: &'static str)
        ensures
            r@ == pick(
                self.lang,
                "Task does not exist or is not completed"@,
                "タスクが存在しないか、完了していません"@,
                "任务不存在或未完成"@,
            ),
    {
        match self.lang {
            Language::English => "Task does not exist or is not completed",
            Language::Japanese => "タスクが存在しないか、完了していません",
            Language::Chinese => "任务不存在或未完成",
        }
    }

    /// The words for `Failed to save task`.
    pub fn save_failed(&self) -> (r: &'static str)
        ensures
            r@ == pick(
                self.lang,
                "Failed to save task"@,
                "タスクの保存に失敗しました"@,
                "保存任务失败"@,
            ),
    {
        match self.lang {
            Language::English => "Failed to save task",
            Language::Japanese => "タスクの保存に失敗しました",
            Language::Chinese => "保存任务失败",
        }
    }

    /// The words for `Invalid date format, please use YYYY-MM-DD format`.
    pub fn invalid_date_format(&self) -> (r: &'static str)
        ensures
            r@ == pick(
                self.lang,
                "Invalid date format, please use YYYY-MM-DD format"@,
                "日付の形式が無効です。YYYY-MM-DD形式を使用してください"@,
                "日期格式错误，请使用 YYYY-MM-DD 格式"@,
            ),
    {
        match self.lang {
            Language::English => "Invalid date format, please use YYYY-MM-DD format",
            Language::Japanese => "日付の形式が無効です。YYYY-MM-DD形式を使用してください",
            Language::Chinese => "日期格式错误，请使用 YYYY-MM-DD 格式",
        }
    }

    /// The words for `Invalid date and time`.
    pub fn invalid_datetime(&self) -> (r: &'static str)
        ensures
            r@ == pick(self.lang, "Invalid date and time"@, "無効な日付と時刻"@, "无效的日期时间"@),
    {
        match self.lang {
            Language::English => "Invalid date and time",
            Language::Japanese => "無効な日付と時刻",
            Language::Chinese => "无效的日期时间",
        }
    }

    /// The words for `No tasks`.
    pub fn no_tasks(&self) -> (r: String)
        ensures
            r@ == pick(self.lang, "No tasks"@, "タスクはありません"@, "没有任务"@),
    {
        pick_text(self.lang, "No tasks", "タスクはありません", "没有任务")
    }

    /// The words for `Task Details:`.
    pub fn task_details(&self) -> (r: String)
        ensures
            r@ == pick(self.lang, "Task Details:"@, "タスクの詳細:"@, "任务详情:"@),
    {
        pick_text(self.lang, "Task Details:", "タスクの詳細:", "任务详情:")
    }

    /// The words for `Status`.
    pub fn status(&self) -> (r: String)
        ensures
            r@ == pick(self.lang, "Status"@, "状態"@, "状态"@),
    {
        pick_text(self.lang, "Status", "状態", "状态")
    }

    /// The words for `Completed`.
    pub fn status_completed(&self) -> (r: String)
        ensures
            r@ == pick(self.lang, "Completed"@, "完了"@, "已完成"@),
    {
        pick_text(self.lang, "Completed", "完了", "已完成")
    }

    /// The words for `Incomplete`.
    pub fn status_incomplete(&self) -> (r: String)
        ensures
            r@ == pick(self.lang, "Incomplete"@, "未完了"@, "未完成"@),
    {
        pick_text(self.lang, "Incomplete", "未完了", "未完成")
    }

    /// The words for `Starred`.
    pub fn starred(&self) -> (r: String)
        ensures
            r@ == pick(self.lang, "Starred"@, "重要マーク"@, "重要标记"@),
    {
        pick_text(self.lang, "Starred", "重要マーク", "重要标记")
    }

    /// The words for `Yes ★`.
    pub fn yes(&self) -> (r: String)
        ensures
            r@ == pick(self.lang, "Yes ★"@, "はい ★"@, "是 ★"@),
    {
        pick_text(self.lang, "Yes ★", "はい ★", "是 ★")
    }

    /// The words for `No`.
    pub fn no(&self) -> (r: String)
        ensures
            r@ == pick(self.lang, "No"@, "いいえ"@, "否"@),
    {
        pick_text(self.lang, "No", "いいえ", "否")
    }

    /// The words for `Created at`.
    pub fn created_at(&self) -> (r: String)
        ensures
            r@ == pick(self.lang, "Created at"@, "作成日時"@, "创建时间"@),
    {
        pick_text(self.lang, "Created at", "作成日時", "创建时间")
    }

    /// The words for `Please provide content or due date to modify`.
    pub fn provide_content_or_date(&self) -> (r: String)
        ensures
            r@ == pick(
                self.lang,
                "Please provide content or due date to modify"@,
                "変更するコンテンツまたは期限を提供してください"@,
                "请提供要修改的内容或截止日期"@,
            ),
    {
        pick_text(
            self.lang,
            "Please provide content or due date to modify",
            "変更するコンテンツまたは期限を提供してください",
            "请提供要修改的内容或截止日期",
        )
    }

    /// The words for `Jodo - A simple command-line Todo application`.
    pub fn help_title(&self) -> (r: String)
        ensures
            r@ == pick(
                self.lang,
                "Jodo - A simple command-line Todo application"@,
                "Jodo - シンプルなコマンドラインTodoアプリケーション"@,
                "Jodo - 简单的命令行Todo应用"@,
            ),
    {
        pick_text(
            self.lang,
            "Jodo - A simple command-line Todo application",
            "Jodo - シンプルなコマンドラインTodoアプリケーション",
            "Jodo - 简单的命令行Todo应用",
        )
    }

    /// The words for `Basic Usage:`.
    pub fn basic_usage(&self) -> (r: String)
        ensures
            r@ == pick(self.lang, "Basic Usage:"@, "基本的な使い方:"@, "基本用法:"@),
    {
        pick_text(self.lang, "Basic Usage:", "基本的な使い方:", "基本用法:")
    }

    /// The words for `Task Management Commands:`.
    pub fn task_management(&self) -> (r: String)
        ensures
            r@ == pick(
                self.lang,
                "Task Management Commands:"@,
                "タスク管理コマンド:"@,
                "任务管理命令:"@,
            ),
    {
        pick_text(self.lang, "Task Management Commands:", "タスク管理コマンド:", "任务管理命令:")
    }

    /// The words for `Note: Completed tasks have a 'c' suffix, e.g. '1c'`.
    pub fn note_completed_tasks(&self) -> (r: String)
        ensures
            r@ == pick(
                self.lang,
                "Note: Completed tasks have a 'c' suffix, e.g. '1c'"@,
                "注意: 完了したタスクは'c'サフィックスが付きます。例: '1c'"@,
                "注意: 已完成的任务ID会在末尾显示'c'，例如 '1c'"@,
            ),
    {
        pick_text(
            self.lang,
            "Note: Completed tasks have a 'c' suffix, e.g. '1c'",
            "注意: 完了したタスクは'c'サフィックスが付きます。例: '1c'",
            "注意: 已完成的任务ID会在末尾显示'c'，例如 '1c'",
        )
    }

    /// The words for `Other Options:`.
    pub fn other_options(&self) -> (r: String)
        ensures
            r@ == pick(self.lang, "Other Options:"@, "その他のオプション:"@, "其他选项:"@),
    {
        pick_text(self.lang, "Other Options:", "その他のオプション:", "其他选项:")
    }

    /// The words for `Examples:`.
    pub fn examples(&self) -> (r: String)
        ensures
            r@ == pick(self.lang, "Examples:"@, "例:"@, "示例:"@),
    {
        pick_text(self.lang, "Examples:", "例:", "示例:")
    }

    /// The words for `Jodo version`.
    pub fn version_info(&self) -> (r: String)
        ensures
            r@ == pick(self.lang, "Jodo version"@, "Jodoバージョン"@, "Jodo 版本"@),
    {
        pick_text(self.lang, "Jodo version", "Jodoバージョン", "Jodo 版本")
    }

    /// The words for `A simple command-line Todo application`.
    pub fn app_description(&self) -> (r: String)
        ensures
            r@ == pick(
                self.lang,
                "A simple command-line Todo application"@,
                "シンプルなコマンドラインTodoアプリケーション"@,
                "一个简单的命令行Todo应用"@,
            ),
    {
        pick_text(
            self.lang,
            "A simple command-line Todo application",
            "シンプルなコマンドラインTodoアプリケーション",
            "一个简单的命令行Todo应用",
        )
    }

    /// The words for `Author`.
    pub fn author(&self) -> (r: String)
        ensures
            r@ == pick(self.lang, "Author"@, "作者"@, "作者"@),
    {
        pick_text(self.lang, "Author", "作者", "作者")
    }

    /// The line `Failed to initialize task list: <e>`.
    pub fn init_failed(&self, e: &str) -> (r: String)
        ensures
            r@ == pick(
                self.lang,
                "Failed to initialize task list: "@ + e@ + ""@,
                "タスクリストの初期化に失敗しました: "@ + e@ + ""@,
                "初始化任务列表失败: "@ + e@ + ""@,
            ),
    {
        match self.lang {
            Language::English => around("Failed to initialize task list: ", e, ""),
            Language::Japanese => around("タスクリストの初期化に失敗しました: ", e, ""),
            Language::Chinese => around("初始化任务列表失败: ", e, ""),
        }
    }

    /// The words for `Due Date Colors`.
    pub fn due_status_legend(&self) -> (r: String)
        ensures
            r@ == pick(self.lang, "Due Date Colors"@, "期限の色分け"@, "截止日期颜色说明"@),
    {
        pick_text(self.lang, "Due Date Colors", "期限の色分け", "截止日期颜色说明")
    }

    /// The words for `Overdue`.
    pub fn overdue(&self) -> (r: String)
        ensures
            r@ == pick(self.lang, "Overdue"@, "期限切れ"@, "已过期"@),
    {
        pick_text(self.lang, "Overdue", "期限切れ", "已过期")
    }

    /// The words for `Urgent (Today)`.
    pub fn urgent(&self) -> (r: String)
        ensures
            r@ == pick(self.lang, "Urgent (Today)"@, "緊急 (今日)"@, "紧急 (今天)"@),
    {
        pick_text(self.lang, "Urgent (Today)", "緊急 (今日)", "紧急 (今天)")
    }

    /// The words for `Soon (Within 3 days)`.
    pub fn soon(&self) -> (r: String)
        ensures
            r@ == pick(
                self.lang,
                "Soon (Within 3 days)"@,
                "まもなく (3日以内)"@,
                "即将到期 (3天内)"@,
            ),
    {
        pick_text(self.lang, "Soon (Within 3 days)", "まもなく (3日以内)", "即将到期 (3天内)")
    }

    /// The words for `Task View`.
    pub fn task_view(&self) -> (r: String)
        ensures
            r@ == pick(self.lang, "Task View"@, "タスクビュー"@, "任务视图"@),
    {
        pick_text(self.lang, "Task View", "タスクビュー", "任务视图")
    }

    /// The words for `Batch mode (type 'exit' to quit):`.
    pub fn multi_mode_start(&self) -> (r: String)
        ensures
            r@ == pick(
                self.lang,
                "Batch mode (type 'exit' to quit):"@,
                "バッチモード ('exit'で終了):"@,
                "批量添加模式 (输入 'exit' 结束):"@,
            ),
    {
        pick_text(
            self.lang,
            "Batch mode (type 'exit' to quit):",
            "バッチモード ('exit'で終了):",
            "批量添加模式 (输入 'exit' 结束):",
        )
    }

    /// The prompt of batch entry.
    pub fn multi_mode_prompt(&self) -> (r: String)
        ensures
            r@ == "jodo$> "@,
    {
        "jodo$> ".to_owned()
    }

    /// The line `Tasks <ids> marked as completed`.
    pub fn tasks_completed(&self, ids: &[String]) -> (r: String)
        ensures
            r@ == pick(
                self.lang,
                "Tasks "@ + joined_by(texts(ids@), ", "@) + " marked as completed"@,
                "タスク "@ + joined_by(texts(ids@), ", "@) + " が完了としてマークされました"@,
                "任务 "@ + joined_by(texts(ids@), ", "@) + " 已标记为完成"@,
            ),
    {
        let list = id_list(ids);
        match self.lang {
            Language::English => around("Tasks ", list.as_str(), " marked as completed"),
            Language::Japanese => around("タスク ", list.as_str(), " が完了としてマークされました"),
            Language::Chinese => around("任务 ", list.as_str(), " 已标记为完成"),
        }
    }

    /// The words for `Add new task`.
    pub fn add_task(&self) -> (r: String)
        ensures
            r@ == pick(self.lang, "Add new task"@, "新しいタスクを追加"@, "添加新任务"@),
    {
        pick_text(self.lang, "Add new task", "新しいタスクを追加", "添加新任务")
    }

    /// The words for `Add task with due date`.
    pub fn add_task_with_date(&self) -> (r: String)
        ensures
            r@ == pick(
                self.lang,
                "Add task with due date"@,
                "期限付きでタスクを追加"@,
                "添加带截止日期的任务"@,
            ),
    {
        pick_text(
            self.lang,
            "Add task with due date",
            "期限付きでタスクを追加",
            "添加带截止日期的任务",
        )
    }

    /// The words for `List all tasks`.
    pub fn list_tasks_cmd(&self) -> (r: String)
        ensures
            r@ == pick(self.lang, "List all tasks"@, "すべてのタスクを表示"@, "列出所有任务"@),
    {
        pick_text(self.lang, "List all tasks", "すべてのタスクを表示", "列出所有任务")
    }

    /// The words for `Edit task content`.
    pub fn edit_task_content(&self) -> (r: String)
        ensures
            r@ == pick(self.lang, "Edit task content"@, "タスク内容を編集"@, "编辑任务内容"@),
    {
        pick_text(self.lang, "Edit task content", "タスク内容を編集", "编辑任务内容")
    }

    /// The words for `Edit task due date`.
    pub fn edit_task_due_date(&self) -> (r: String)
        ensures
            r@ == pick(
                self.lang,
                "Edit task due date"@,
                "タスクの期限を編集"@,
                "修改任务截止日期"@,
            ),
    {
        pick_text(self.lang, "Edit task due date", "タスクの期限を編集", "修改任务截止日期")
    }

    /// The words for `Mark task as completed`.
    pub fn mark_task_completed(&self) -> (r: String)
        ensures
            r@ == pick(
                self.lang,
                "Mark task as completed"@,
                "タスクを完了としてマーク"@,
                "标记任务为已完成"@,
            ),
    {
        pick_text(
            self.lang,
            "Mark task as completed",
            "タスクを完了としてマーク",
            "标记任务为已完成",
        )
    }

    /// The words for `Mark task as incomplete`.
    pub fn mark_task_incomplete(&self) -> (r: String)
        ensures
            r@ == pick(
                self.lang,
                "Mark task as incomplete"@,
                "タスクを未完了としてマーク"@,
                "取消任务完成标记"@,
            ),
    {
        pick_text(
            self.lang,
            "Mark task as incomplete",
            "タスクを未完了としてマーク",
            "取消任务完成标记",
        )
    }

    /// The words for `Mark task as important (pin to top)`.
    pub fn star_task_cmd(&self) -> (r: String)
        ensures
            r@ == pick(
                self.lang,
                "Mark task as important (pin to top)"@,
                "タスクを重要としてマーク（トップに固定）"@,
                "标记任务为重要（置顶）"@,
            ),
    {
        pick_text(
            self.lang,
            "Mark task as important (pin to top)",
            "タスクを重要としてマーク（トップに固定）",
            "标记任务为重要（置顶）",
        )
    }

    /// The words for `Unmark task as important`.
    pub fn unstar_task_cmd(&self) -> (r: String)
        ensures
            r@ == pick(
                self.lang,
                "Unmark task as important"@,
                "タスクの重要マークを解除"@,
                "取消任务的重要标记"@,
            ),
    {
        pick_text(
            self.lang,
            "Unmark task as important",
            "タスクの重要マークを解除",
            "取消任务的重要标记",
        )
    }

    /// The words for `Delete task`.
    pub fn delete_task(&self) -> (r: String)
        ensures
            r@ == pick(self.lang, "Delete task"@, "タスクを削除"@, "删除任务"@),
    {
        pick_text(self.lang, "Delete task", "タスクを削除", "删除任务")
    }

    /// The words for `Show task details`.
    pub fn show_task_details(&self) -> (r: String)
        ensures
            r@ == pick(
                self.lang,
                "Show task details"@,
                "タスクの詳細を表示"@,
                "显示任务的详细信息"@,
            ),
    {
        pick_text(self.lang, "Show task details", "タスクの詳細を表示", "显示任务的详细信息")
    }

    /// The words for `Enter batch mode to add multiple tasks`.
    pub fn batch_mode(&self) -> (r: String)
        ensures
            r@ == pick(
                self.lang,
                "Enter batch mode to add multiple tasks"@,
                "バッチモードで複数のタスクを追加"@,
                "进入批量添加任务模式"@,
            ),
    {
        pick_text(
            self.lang,
            "Enter batch mode to add multiple tasks",
            "バッチモードで複数のタスクを追加",
            "进入批量添加任务模式",
        )
    }

    /// The words for `Set language (zh-cn/en/ja)`.
    pub fn set_language(&self) -> (r: String)
        ensures
            r@ == pick(
                self.lang,
                "Set language (zh-cn/en/ja)"@,
                "言語を設定 (zh-cn/en/ja)"@,
                "设置语言 (zh-cn/en/ja)"@,
            ),
    {
        pick_text(
            self.lang,
            "Set language (zh-cn/en/ja)",
            "言語を設定 (zh-cn/en/ja)",
            "设置语言 (zh-cn/en/ja)",
        )
    }

    /// The words for `Show help information`.
    pub fn show_help_info(&self) -> (r: String)
        ensures
            r@ == pick(self.lang, "Show help information"@, "ヘルプ情報を表示"@, "显示帮助信息"@),
    {
        pick_text(self.lang, "Show help information", "ヘルプ情報を表示", "显示帮助信息")
    }

    /// The words for `Show version information`.
    pub fn show_version_info(&self) -> (r: String)
        ensures
            r@ == pick(
                self.lang,
                "Show version information"@,
                "バージョン情報を表示"@,
                "显示版本信息"@,
            ),
    {
        pick_text(self.lang, "Show version information", "バージョン情報を表示", "显示版本信息")
    }

    /// The words for `Views`.
    pub fn views(&self) -> (r: String)
        ensures
            r@ == pick(self.lang, "Views"@, "ビュー"@, "视图"@),
    {
        pick_text(self.lang, "Views", "ビュー", "视图")
    }

    /// The line `Error: <msg>`.
    pub fn cmd_error(&self, msg: &str) -> (r: String)
        ensures
            r@ == pick(
                self.lang,
                "Error: "@ + msg@ + ""@,
                "エラー: "@ + msg@ + ""@,
                "错误: "@ + msg@ + ""@,
            ),
    {
        match self.lang {
            Language::English => around("Error: ", msg, ""),
            Language::Japanese => around("エラー: ", msg, ""),
            Language::Chinese => around("错误: ", msg, ""),
        }
    }

    /// The line `Tasks <ids> deleted`.
    pub fn tasks_deleted(&self, ids: &[usize]) -> (r: String)
        ensures
            r@ == pick(
                self.lang,
                "Tasks "@ + joined_by(number_texts(ids@), ", "@) + " deleted"@,
                "タスク "@ + joined_by(number_texts(ids@), ", "@) + " が削除されました"@,
                "任务 "@ + joined_by(number_texts(ids@), ", "@) + " 已删除"@,
            ),
    {
        let list = number_list(ids);
        match self.lang {
            Language::English => around("Tasks ", list.as_str(), " deleted"),
            Language::Japanese => around("タスク ", list.as_str(), " が削除されました"),
            Language::Chinese => around("任务 ", list.as_str(), " 已删除"),
        }
    }

    /// The words for `Complete project report`.
    pub fn example_task(&self) -> (r: String)
        ensures
            r@ == pick(
                self.lang,
                "Complete project report"@,
                "プロジェクトレポートを完成させる"@,
                "完成项目报告"@,
            ),
    {
        pick_text(
            self.lang,
            "Complete project report",
            "プロジェクトレポートを完成させる",
            "完成项目报告",
        )
    }

    /// The words for `Updated task content`.
    pub fn example_edit_task(&self) -> (r: String)
        ensures
            r@ == pick(
                self.lang,
                "Updated task content"@,
                "更新されたタスク内容"@,
                "已修改的任务内容"@,
            ),
    {
        pick_text(self.lang, "Updated task content", "更新されたタスク内容", "已修改的任务内容")
    }

    /// The line `Language switched to <lang_name>`.
    pub fn language_changed(&self, lang_name: &str) -> (r: String)
        ensures
            r@ == pick(
                self.lang,
                "Language switched to "@ + lang_name@ + ""@,
                "言語が"@ + lang_name@ + "に切り替えられました"@,
                "语言已切换为"@ + lang_name@ + ""@,
            ),
    {
        match self.lang {
            Language::English => around("Language switched to ", lang_name, ""),
            Language::Japanese => around("言語が", lang_name, "に切り替えられました"),
            Language::Chinese => around("语言已切换为", lang_name, ""),
        }
    }

    /// The line `Tasks <ids> marked as incomplete`.
    pub fn tasks_uncompleted(&self, ids: &[String]) -> (r: String)
        ensures
            r@ == pick(
                self.lang,
                "Tasks "@ + joined_by(texts(ids@), ", "@) + " marked as incomplete"@,
                "タスク "@ + joined_by(texts(ids@), ", "@) + " が未完了としてマークされました"@,
                "任务 "@ + joined_by(texts(ids@), ", "@) + " 已标记为未完成"@,
            ),
    {
        let list = id_list(ids);
        match self.lang {
            Language::English => around("Tasks ", list.as_str(), " marked as incomplete"),
            Language::Japanese => around("タスク ", list.as_str(), " が未完了としてマークされました"),
            Language::Chinese => around("任务 ", list.as_str(), " 已标记为未完成"),
        }
    }
}

} // verus!
