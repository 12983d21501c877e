use jodo::store::TodoList;
use jodo::task::{Task, TaskError};
use jodo::time::{Date, Timestamp};

fn stamp() -> Timestamp {
    Timestamp::new(1_700_000_000, 0).unwrap()
}

fn list_of(descriptions: &[&str]) -> TodoList {
    let mut list = TodoList::new(Vec::new());
    for d in descriptions {
        list.add_task(d.to_string(), None, stamp());
    }
    list
}

fn ids(texts: &[&str]) -> Vec<String> {
    texts.iter().map(|t| t.to_string()).collect()
}

/// The live tasks as (id, description, completed), by id.
fn shown(list: &TodoList) -> Vec<(usize, String, bool)> {
    let mut rows: Vec<(usize, String, bool)> = list
        .tasks()
        .iter()
        .filter(|t| !t.deleted)
        .map(|t| (t.id, t.description.clone(), t.completed))
        .collect();
    rows.sort();
    rows
}

fn row(id: usize, description: &str, completed: bool) -> (usize, String, bool) {
    (id, description.to_string(), completed)
}

fn assert_dense(list: &TodoList) {
    let mut open: Vec<usize> =
        list.tasks().iter().filter(|t| !t.deleted && !t.completed).map(|t| t.id).collect();
    let mut done: Vec<usize> =
        list.tasks().iter().filter(|t| !t.deleted && t.completed).map(|t| t.id).collect();
    open.sort();
    done.sort();
    let k = open.len();
    assert_eq!(open, (1..=k).collect::<Vec<usize>>());
    assert_eq!(done, (k + 1..=k + done.len()).collect::<Vec<usize>>());
    assert_eq!(list.next_id(), k + done.len() + 1);
}

#[test]
fn new_store_is_empty() {
    let list = TodoList::new(Vec::new());
    assert_eq!(list.len(), 0);
    assert_eq!(list.next_id(), 1);
    assert!(list.get_task("1").is_none());
}

#[test]
fn added_task_is_incomplete_unstarred_and_last() {
    let mut list = list_of(&["a"]);
    let due = Date::new(2024, 5, 1);
    let task = list.add_task("b".to_string(), due, stamp());
    assert_eq!(task.id, 2);
    assert_eq!(task.description, "b");
    assert!(!task.completed && !task.starred && !task.deleted);
    assert_eq!(task.due_date, due);
    assert_eq!(task.created_at, stamp());
    assert_eq!(list.len(), 2);
    assert_eq!(list.next_id(), 3);
}

#[test]
fn added_task_comes_before_completed_ones() {
    let mut list = list_of(&["a", "b"]);
    assert_eq!(list.mark_done("1"), Ok(()));
    let task = list.add_task("c".to_string(), None, stamp());
    assert_eq!(task.id, 2);
    assert_eq!(shown(&list), vec![row(1, "b", false), row(2, "c", false), row(3, "a", true)]);
}

#[test]
fn star_moves_task_to_top() {
    let mut list = list_of(&["buy milk", "pay rent"]);
    assert_eq!(list.star_task("2"), Ok(()));
    assert_eq!(shown(&list), vec![row(1, "pay rent", false), row(2, "buy milk", false)]);
}

#[test]
fn starred_tasks_keep_their_order_among_themselves() {
    let mut list = list_of(&["a", "b", "c", "d"]);
    assert_eq!(list.star_task("4"), Ok(()));
    assert_eq!(list.star_task("3"), Ok(()));
    assert_eq!(
        shown(&list),
        vec![row(1, "d", false), row(2, "b", false), row(3, "a", false), row(4, "c", false)]
    );
}

#[test]
fn unstar_sends_task_behind_the_starred() {
    let mut list = list_of(&["a", "b", "c"]);
    assert_eq!(list.star_task("2"), Ok(()));
    assert_eq!(list.star_task("3"), Ok(()));
    assert_eq!(shown(&list), vec![row(1, "b", false), row(2, "c", false), row(3, "a", false)]);
    assert_eq!(list.unstar_task("1"), Ok(()));
    assert_eq!(shown(&list), vec![row(1, "c", false), row(2, "b", false), row(3, "a", false)]);
}

#[test]
fn star_is_idempotent() {
    let mut list = list_of(&["a", "b"]);
    assert_eq!(list.star_task("2"), Ok(()));
    assert_eq!(list.star_task("1"), Ok(()));
    assert_eq!(shown(&list), vec![row(1, "b", false), row(2, "a", false)]);
    assert_eq!(list.unstar_task("2"), Ok(()));
    assert_eq!(list.unstar_task("2"), Ok(()));
    assert_eq!(shown(&list), vec![row(1, "b", false), row(2, "a", false)]);
}

#[test]
fn star_has_no_effect_on_completed_order() {
    let mut list = list_of(&["a", "b", "c"]);
    assert_eq!(list.mark_done("1"), Ok(()));
    assert_eq!(list.mark_done("1"), Ok(()));
    // b carried the smaller id when it was completed, so it is listed first
    assert_eq!(shown(&list), vec![row(1, "c", false), row(2, "b", true), row(3, "a", true)]);
    assert_eq!(list.star_task("3c"), Ok(()));
    assert_eq!(shown(&list), vec![row(1, "c", false), row(2, "b", true), row(3, "a", true)]);
    assert!(list.get_task("3c").unwrap().starred);
    assert!(!list.get_task("2c").unwrap().starred);
}

#[test]
fn star_of_unknown_id_is_not_found() {
    let mut list = list_of(&["a"]);
    assert_eq!(list.star_task("2"), Err(TaskError::NotFound));
    assert_eq!(list.unstar_task("1c"), Err(TaskError::NotFound));
    assert_eq!(list.star_task("x"), Err(TaskError::NotFound));
    assert_eq!(shown(&list), vec![row(1, "a", false)]);
}

#[test]
fn completing_renumbers_the_rest() {
    let mut list = list_of(&["a", "b"]);
    assert_eq!(list.mark_done("1"), Ok(()));
    assert_eq!(shown(&list), vec![row(1, "b", false), row(2, "a", true)]);
    assert_eq!(list.get_task("2c").map(|t| t.description.clone()), Some("a".to_string()));
    assert!(list.get_task("2").is_none());
    assert_eq!(list.get_task("1").map(|t| t.description.clone()), Some("b".to_string()));
}

#[test]
fn completing_what_is_complete_is_invalid_state() {
    let mut list = list_of(&["a", "b"]);
    assert_eq!(list.mark_done("1"), Ok(()));
    assert_eq!(list.mark_done("2c"), Err(TaskError::InvalidState));
    assert_eq!(list.mark_done("2"), Err(TaskError::InvalidState));
    assert_eq!(list.mark_done("9"), Err(TaskError::InvalidState));
    assert_eq!(list.mark_done("1c"), Err(TaskError::InvalidState));
    assert_eq!(shown(&list), vec![row(1, "b", false), row(2, "a", true)]);
}

#[test]
fn uncompleting_what_is_incomplete_is_invalid_state() {
    let mut list = list_of(&["a", "b"]);
    assert_eq!(list.mark_undone("1"), Err(TaskError::InvalidState));
    assert_eq!(list.mark_undone("1c"), Err(TaskError::InvalidState));
    assert_eq!(list.mark_done("1"), Ok(()));
    assert_eq!(list.mark_undone("2"), Err(TaskError::InvalidState));
    assert_eq!(shown(&list), vec![row(1, "b", false), row(2, "a", true)]);
}

#[test]
fn complete_then_uncomplete_restores_the_task() {
    let mut list = TodoList::new(Vec::new());
    list.add_task("a".to_string(), Date::new(2024, 1, 2), stamp());
    list.add_task("b".to_string(), None, stamp());
    list.add_task("c".to_string(), None, stamp());
    assert_eq!(list.star_task("2"), Ok(()));
    // b is 1, a is 2, c is 3
    assert_eq!(list.mark_done("2"), Ok(()));
    assert_eq!(shown(&list), vec![row(1, "b", false), row(2, "c", false), row(3, "a", true)]);
    assert_eq!(list.mark_undone("3c"), Ok(()));
    let a = list.tasks().iter().find(|t| t.description == "a").unwrap();
    assert!(!a.completed && !a.starred && !a.deleted);
    assert_eq!(a.due_date, Date::new(2024, 1, 2));
    assert_eq!(a.created_at, stamp());
    assert_eq!(a.id, 3);
    assert_eq!(shown(&list), vec![row(1, "b", false), row(2, "c", false), row(3, "a", false)]);
}

#[test]
fn edit_replaces_only_what_is_given() {
    let mut list = TodoList::new(Vec::new());
    list.add_task("a".to_string(), Date::new(2024, 1, 2), stamp());
    assert_eq!(list.edit_task("1", Some("z"), None), Ok(()));
    assert_eq!(list.get_task("1").unwrap().description, "z");
    assert_eq!(list.get_task("1").unwrap().due_date, Date::new(2024, 1, 2));
    assert_eq!(list.edit_task("1", None, Date::new(2025, 3, 4)), Ok(()));
    assert_eq!(list.get_task("1").unwrap().description, "z");
    assert_eq!(list.get_task("1").unwrap().due_date, Date::new(2025, 3, 4));
    assert_eq!(list.edit_task("1", Some("y"), Date::new(2026, 5, 6)), Ok(()));
    assert_eq!(list.get_task("1").unwrap().description, "y");
    assert_eq!(list.get_task("1").unwrap().due_date, Date::new(2026, 5, 6));
    assert_eq!(list.edit_task("1", None, None), Ok(()));
    assert_eq!(list.get_task("1").unwrap().description, "y");
    assert_eq!(list.get_task("1").unwrap().id, 1);
}

#[test]
fn edit_of_unknown_id_is_not_found() {
    let mut list = list_of(&["a"]);
    assert_eq!(list.edit_task("2", Some("z"), None), Err(TaskError::NotFound));
    assert_eq!(list.edit_task("1c", Some("z"), None), Err(TaskError::NotFound));
    assert_eq!(list.get_task("1").unwrap().description, "a");
}

#[test]
fn edit_reaches_completed_tasks_by_marked_id() {
    let mut list = list_of(&["a", "b"]);
    assert_eq!(list.mark_done("2"), Ok(()));
    assert_eq!(list.edit_task("2c", Some("done"), None), Ok(()));
    assert_eq!(shown(&list), vec![row(1, "a", false), row(2, "done", true)]);
}

#[test]
fn remove_single_task() {
    let mut list = list_of(&["a", "b", "c"]);
    assert_eq!(list.remove_task("2"), Ok(()));
    assert_eq!(shown(&list), vec![row(1, "a", false), row(2, "c", false)]);
    assert_eq!(list.len(), 3);
    assert_eq!(list.remove_task("3"), Err(TaskError::NotFound));
    assert_eq!(shown(&list), vec![row(1, "a", false), row(2, "c", false)]);
}

#[test]
fn batch_remove_uses_the_ids_seen() {
    let mut list = list_of(&["a", "b", "c"]);
    assert_eq!(list.remove_tasks(&ids(&["1", "3"])), Ok(vec![1, 3]));
    assert_eq!(shown(&list), vec![row(1, "b", false)]);
}

#[test]
fn batch_remove_in_any_order() {
    let mut list = list_of(&["a", "b", "c", "d"]);
    assert_eq!(list.remove_tasks(&ids(&["3", "1", "2"])), Ok(vec![3, 1, 2]));
    assert_eq!(shown(&list), vec![row(1, "d", false)]);
}

#[test]
fn batch_remove_is_atomic() {
    let mut list = list_of(&["a", "b", "c"]);
    assert_eq!(list.remove_tasks(&ids(&["2", "3", "4"])), Err(TaskError::NotFound));
    assert_eq!(shown(&list), vec![row(1, "a", false), row(2, "b", false), row(3, "c", false)]);
    assert_eq!(list.remove_tasks(&ids(&["7", "3"])), Err(TaskError::NotFound));
    assert_eq!(shown(&list).len(), 3);
}

#[test]
fn batch_remove_of_mixed_groups() {
    let mut list = list_of(&["a", "b", "c"]);
    assert_eq!(list.mark_done("1"), Ok(()));
    // b 1, c 2, a 3c
    assert_eq!(list.remove_tasks(&ids(&["3c", "1"])), Ok(vec![3, 1]));
    assert_eq!(shown(&list), vec![row(1, "c", false)]);
}

#[test]
fn batch_remove_of_the_same_id_twice() {
    let mut list = list_of(&["a", "b"]);
    assert_eq!(list.remove_tasks(&ids(&["1", "1"])), Ok(vec![1, 1]));
    assert_eq!(shown(&list), vec![row(1, "b", false)]);
}

#[test]
fn empty_batch_remove_changes_nothing() {
    let mut list = list_of(&["a"]);
    assert_eq!(list.remove_tasks(&[]), Ok(vec![]));
    assert_eq!(shown(&list), vec![row(1, "a", false)]);
}

#[test]
fn deleted_task_cannot_be_reached() {
    let mut list = list_of(&["a", "b"]);
    assert_eq!(list.remove_task("1"), Ok(()));
    assert_eq!(list.get_task("1").unwrap().description, "b");
    assert!(list.get_task("2").is_none());
    assert_eq!(list.mark_done("2"), Err(TaskError::InvalidState));
    assert_eq!(list.star_task("2"), Err(TaskError::NotFound));
    assert_eq!(list.edit_task("2", Some("x"), None), Err(TaskError::NotFound));
    assert_eq!(list.remove_task("2"), Err(TaskError::NotFound));
    let gone = &list.tasks()[0];
    assert!(gone.deleted);
    assert_eq!(gone.description, "a");
    assert_eq!(list.listing(false), vec![1]);
    assert_eq!(list.listing(true), Vec::<usize>::new());
}

#[test]
fn deleted_task_keeps_its_old_id_and_takes_no_new_one() {
    let mut list = list_of(&["a", "b", "c"]);
    assert_eq!(list.remove_task("2"), Ok(()));
    assert_eq!(list.tasks()[1].id, 2);
    list.add_task("d".to_string(), None, stamp());
    assert_eq!(list.tasks()[1].id, 2);
    assert_eq!(shown(&list), vec![row(1, "a", false), row(2, "c", false), row(3, "d", false)]);
    assert_eq!(list.next_id(), 4);
}

#[test]
fn mark_done_multiple_skips_what_does_not_resolve() {
    let mut list = list_of(&["a", "b", "c"]);
    assert_eq!(list.mark_done_multiple(&ids(&["1", "9", "3", "x"])), Ok(ids(&["1", "3"])));
    assert_eq!(shown(&list), vec![row(1, "b", false), row(2, "a", true), row(3, "c", true)]);
}

#[test]
fn mark_done_multiple_sees_the_ids_of_the_request() {
    let mut list = list_of(&["a", "b", "c"]);
    // a naive pass that renumbered after each id would complete a and c here
    assert_eq!(list.mark_done_multiple(&ids(&["1", "2"])), Ok(ids(&["1", "2"])));
    assert_eq!(shown(&list), vec![row(1, "c", false), row(2, "a", true), row(3, "b", true)]);
}

#[test]
fn mark_done_multiple_same_id_twice_counts_once() {
    let mut list = list_of(&["a", "b"]);
    assert_eq!(list.mark_done_multiple(&ids(&["1", "1"])), Ok(ids(&["1"])));
    assert_eq!(shown(&list), vec![row(1, "b", false), row(2, "a", true)]);
}

#[test]
fn mark_done_multiple_fails_when_nothing_matches() {
    let mut list = list_of(&["a"]);
    assert_eq!(list.mark_done_multiple(&ids(&["5", "6"])), Err(TaskError::InvalidState));
    assert_eq!(list.mark_done_multiple(&[]), Err(TaskError::InvalidState));
    assert_eq!(shown(&list), vec![row(1, "a", false)]);
}

#[test]
fn mark_undone_multiple_takes_marked_ids_only() {
    let mut list = list_of(&["a", "b", "c"]);
    assert_eq!(list.mark_done_multiple(&ids(&["1", "2", "3"])), Ok(ids(&["1", "2", "3"])));
    assert_eq!(shown(&list), vec![row(1, "a", true), row(2, "b", true), row(3, "c", true)]);
    assert_eq!(list.mark_undone_multiple(&ids(&["1", "2c", "7c", "3c"])), Ok(ids(&["2c", "3c"])));
    assert_eq!(shown(&list), vec![row(1, "b", false), row(2, "c", false), row(3, "a", true)]);
}

#[test]
fn mark_undone_multiple_fails_when_nothing_matches() {
    let mut list = list_of(&["a", "b"]);
    assert_eq!(list.mark_done("1"), Ok(()));
    assert_eq!(list.mark_undone_multiple(&ids(&["2", "1c"])), Err(TaskError::InvalidState));
    assert_eq!(shown(&list), vec![row(1, "b", false), row(2, "a", true)]);
}

#[test]
fn edit_tasks_due_date_skips_what_does_not_resolve() {
    let mut list = list_of(&["a", "b", "c"]);
    let due = Date::new(2024, 12, 24).unwrap();
    assert_eq!(list.edit_tasks_due_date(&ids(&["1", "5", "3"]), due), Ok(ids(&["1", "3"])));
    assert_eq!(list.get_task("1").unwrap().due_date, Some(due));
    assert_eq!(list.get_task("2").unwrap().due_date, None);
    assert_eq!(list.get_task("3").unwrap().due_date, Some(due));
    assert_eq!(shown(&list), vec![row(1, "a", false), row(2, "b", false), row(3, "c", false)]);
}

#[test]
fn edit_tasks_due_date_fails_when_nothing_matches() {
    let mut list = list_of(&["a"]);
    let due = Date::new(2024, 12, 24).unwrap();
    assert_eq!(list.edit_tasks_due_date(&ids(&["2", "1c"]), due), Err(TaskError::NotFound));
    assert_eq!(list.get_task("1").unwrap().due_date, None);
}

#[test]
fn new_store_renumbers_what_it_is_given() {
    let t = |id: usize, d: &str, completed: bool, starred: bool, deleted: bool| Task {
        id,
        description: d.to_string(),
        completed,
        created_at: stamp(),
        due_date: None,
        starred,
        deleted,
    };
    let list = TodoList::new(vec![
        t(7, "x", false, false, false),
        t(3, "y", true, false, false),
        t(9, "z", false, true, false),
        t(1, "gone", false, false, true),
        t(2, "w", false, false, false),
        t(1, "v", true, true, false),
    ]);
    assert_eq!(
        shown(&list),
        vec![
            row(1, "z", false),
            row(2, "w", false),
            row(3, "x", false),
            row(4, "v", true),
            row(5, "y", true)
        ]
    );
    assert_eq!(list.next_id(), 6);
    assert_eq!(list.tasks()[3].id, 1);
}

#[test]
fn equal_ids_are_numbered_in_the_order_of_the_store() {
    let t = |d: &str| Task {
        id: 4,
        description: d.to_string(),
        completed: false,
        created_at: stamp(),
        due_date: None,
        starred: false,
        deleted: false,
    };
    let list = TodoList::new(vec![t("first"), t("second"), t("third")]);
    assert_eq!(
        shown(&list),
        vec![row(1, "first", false), row(2, "second", false), row(3, "third", false)]
    );
}

#[test]
fn renumbering_twice_changes_nothing() {
    let mut list = list_of(&["a", "b", "c", "d"]);
    assert_eq!(list.star_task("3"), Ok(()));
    assert_eq!(list.mark_done("2"), Ok(()));
    assert_eq!(list.remove_task("3"), Ok(()));
    let before = shown(&list);
    let next = list.next_id();
    list.reassign_ids();
    assert_eq!(shown(&list), before);
    list.reassign_ids();
    assert_eq!(shown(&list), before);
    assert_eq!(list.next_id(), next);
}

#[test]
fn rebuilding_from_the_tasks_keeps_the_store() {
    let mut list = list_of(&["a", "b", "c", "d"]);
    assert_eq!(list.star_task("3"), Ok(()));
    assert_eq!(list.mark_done("2"), Ok(()));
    assert_eq!(list.remove_task("3"), Ok(()));
    let copy: Vec<Task> = list.tasks().iter().map(|t| t.duplicate()).collect();
    let again = TodoList::new(copy);
    assert_eq!(shown(&again), shown(&list));
    assert_eq!(again.len(), list.len());
    assert_eq!(again.next_id(), list.next_id());
    for (a, b) in again.tasks().iter().zip(list.tasks().iter()) {
        assert_eq!(a.id, b.id);
        assert_eq!(a.description, b.description);
        assert_eq!(a.starred, b.starred);
        assert_eq!(a.deleted, b.deleted);
        assert_eq!(a.due_date, b.due_date);
        assert_eq!(a.created_at, b.created_at);
    }
}

#[test]
fn ids_stay_dense_through_a_run_of_operations() {
    let mut list = list_of(&["a", "b", "c", "d", "e", "f"]);
    assert_dense(&list);
    assert_eq!(list.star_task("4"), Ok(()));
    assert_dense(&list);
    assert_eq!(list.mark_done("2"), Ok(()));
    assert_dense(&list);
    assert_eq!(list.mark_done("5"), Ok(()));
    assert_dense(&list);
    assert_eq!(list.remove_tasks(&ids(&["1", "6c"])), Ok(vec![1, 6]));
    assert_dense(&list);
    assert_eq!(list.mark_undone("4c"), Ok(()));
    assert_dense(&list);
    assert_eq!(list.edit_task("2", Some("edited"), None), Ok(()));
    assert_dense(&list);
    assert_eq!(list.unstar_task("1"), Ok(()));
    assert_dense(&list);
    list.add_task("g".to_string(), None, stamp());
    assert_dense(&list);
    assert_eq!(list.mark_done_multiple(&ids(&["1", "2"])), Ok(ids(&["1", "2"])));
    assert_dense(&list);
}

#[test]
fn position_finds_the_first_live_task_with_the_id() {
    let list = list_of(&["a", "b"]);
    assert_eq!(list.position(1, false), Some(0));
    assert_eq!(list.position(2, false), Some(1));
    assert_eq!(list.position(2, true), None);
    assert_eq!(list.position(0, false), None);
    assert_eq!(list.find("2"), Some(1));
    assert_eq!(list.find("+2"), Some(1));
    assert_eq!(list.find("2c"), None);
    assert_eq!(list.find(""), None);
}

#[test]
fn listing_follows_stars_and_ids() {
    let mut list = list_of(&["a", "b", "c", "d"]);
    assert_eq!(list.star_task("3"), Ok(()));
    assert_eq!(list.mark_done("2"), Ok(()));
    // c 1 (starred), b 2, d 3, a 4c
    assert_eq!(list.listing(false), vec![2, 1, 3]);
    assert_eq!(list.listing(true), vec![0]);
}
