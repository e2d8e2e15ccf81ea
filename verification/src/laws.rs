//! What holds of the collection whatever is done to it, stated over the
//! functions by which the contracts of the operations speak.

use crate::command::{not_found_text, outcome, said, CommandView};
use crate::store::{
    decoded, encoded, holds_id, ids_ascending, ids_distinct, lemma_max_id_bounds, loaded, max_id,
    next_id, position_of, with_added, with_description, with_status, without,
};
use crate::task::{lemma_record_round_trip, task_of, RecordView, Status, TaskView};
use crate::time::Timestamp;
use vstd::prelude::*;

verus! {

/// A new task gets an id above every id present, so the ids stay distinct,
/// and the tasks that were there stay as they are.
pub proof fn lemma_added_id_is_new(tasks: Seq<TaskView>, description: Seq<char>, now: Timestamp)
    requires
        ids_distinct(tasks),
        next_id(tasks) <= u32::MAX,
    ensures
        with_added(tasks, description, now).len() == tasks.len() + 1,
        with_added(tasks, description, now).last().id == max_id(tasks) + 1,
        forall|i: int|
            0 <= i < tasks.len() ==> (#[trigger] tasks[i]).id < with_added(
                tasks,
                description,
                now,
            ).last().id,
        forall|i: int|
            0 <= i < tasks.len() ==> with_added(tasks, description, now)[i] == #[trigger] tasks[i],
        ids_distinct(with_added(tasks, description, now)),
        max_id(with_added(tasks, description, now)) == max_id(tasks) + 1,
{
    let after = with_added(tasks, description, now);
    assert(after.drop_last() == tasks);
    assert forall|i: int| 0 <= i < tasks.len() implies (#[trigger] tasks[i]).id
        < after.last().id by {
        lemma_max_id_bounds(tasks, i);
    }
}

/// The collection after tasks with the given descriptions have been added to
/// `tasks` one after another, the k-th of them at the k-th of `times`.
pub open spec fn with_all_added(
    tasks: Seq<TaskView>,
    descriptions: Seq<Seq<char>>,
    times: Seq<Timestamp>,
) -> Seq<TaskView>
    decreases descriptions.len(),
{
    if descriptions.len() == 0 {
        tasks
    } else {
        with_added(
            with_all_added(tasks, descriptions.drop_last(), times.drop_last()),
            descriptions.last(),
            times.last(),
        )
    }
}

/// Where tasks are only added, each gets the id that follows the id of the
/// one added before it: the k-th task added to `tasks` has the id that lies k
/// above the largest id of `tasks`. The tasks that were there stay as they
/// are, and each new task has the description, the time and the status it
/// was added with.
pub proof fn lemma_ids_follow_on(
    tasks: Seq<TaskView>,
    descriptions: Seq<Seq<char>>,
    times: Seq<Timestamp>,
)
    requires
        ids_distinct(tasks),
        descriptions.len() == times.len(),
        max_id(tasks) + descriptions.len() <= u32::MAX,
    ensures
        with_all_added(tasks, descriptions, times).len() == tasks.len() + descriptions.len(),
        max_id(with_all_added(tasks, descriptions, times)) == max_id(tasks) + descriptions.len(),
        ids_distinct(with_all_added(tasks, descriptions, times)),
        forall|i: int|
            0 <= i < tasks.len() ==> with_all_added(tasks, descriptions, times)[i]
                == #[trigger] tasks[i],
        forall|k: int|
            0 <= k < descriptions.len() ==> {
                let task = #[trigger] with_all_added(tasks, descriptions, times)[tasks.len() + k];
                &&& task.id == max_id(tasks) + k + 1
                &&& task.description == descriptions[k]
                &&& task.status == Status::Todo
                &&& task.created_at == times[k]
                &&& task.updated_at == times[k]
            },
    decreases descriptions.len(),
{
    if descriptions.len() > 0 {
        let before = with_all_added(tasks, descriptions.drop_last(), times.drop_last());
        lemma_ids_follow_on(tasks, descriptions.drop_last(), times.drop_last());
        lemma_added_id_is_new(before, descriptions.last(), times.last());
    }
}

/// Where tasks are only added, starting from nothing, the ids count up from
/// 1 without a gap: the k-th task added has the id k.
pub proof fn lemma_ids_count_up(descriptions: Seq<Seq<char>>, times: Seq<Timestamp>)
    requires
        descriptions.len() == times.len(),
        descriptions.len() <= u32::MAX,
    ensures
        with_all_added(Seq::empty(), descriptions, times).len() == descriptions.len(),
        forall|k: int|
            0 <= k < descriptions.len() ==> (#[trigger] with_all_added(
                Seq::empty(),
                descriptions,
                times,
            )[k]).id == k + 1,
{
    let none = Seq::<TaskView>::empty();
    lemma_ids_follow_on(none, descriptions, times);
    let all = with_all_added(none, descriptions, times);
    assert forall|k: int| 0 <= k < descriptions.len() implies (#[trigger] all[k]).id == k + 1 by {
        assert(all[none.len() + k].id == max_id(none) + k + 1);
    }
}

/// Where the ids grow along the collection, they are distinct, and the id
/// for the next new task is the one that follows the id of the last task.
pub proof fn lemma_ascending_next_id(tasks: Seq<TaskView>)
    requires
        ids_ascending(tasks),
    ensures
        ids_distinct(tasks),
        tasks.len() > 0 ==> next_id(tasks) == tasks.last().id + 1,
        tasks.len() == 0 ==> next_id(tasks) == 1,
    decreases tasks.len(),
{
    if tasks.len() > 0 {
        lemma_ascending_next_id(tasks.drop_last());
    }
}

/// Adding keeps the ids growing along the collection.
pub proof fn lemma_ascending_after_add(tasks: Seq<TaskView>, description: Seq<char>, now: Timestamp)
    requires
        ids_ascending(tasks),
        next_id(tasks) <= u32::MAX,
    ensures
        ids_ascending(with_added(tasks, description, now)),
{
    lemma_ascending_next_id(tasks);
    lemma_added_id_is_new(tasks, description, now);
}

/// Deleting keeps the ids growing along the collection.
pub proof fn lemma_ascending_after_delete(tasks: Seq<TaskView>, id: u32)
    requires
        ids_ascending(tasks),
    ensures
        ids_ascending(without(tasks, id)),
{
}

/// An update and the setting of a status keep the ids growing along the
/// collection.
pub proof fn lemma_ascending_after_change(
    tasks: Seq<TaskView>,
    id: u32,
    description: Seq<char>,
    status: Status,
    now: Timestamp,
)
    requires
        ids_ascending(tasks),
    ensures
        ids_ascending(with_description(tasks, id, description, now)),
        ids_ascending(with_status(tasks, id, status, now)),
{
}

/// A collection that is stored and loaded again is the collection that was
/// stored: the same tasks in the same order.
pub proof fn lemma_stored_is_loaded(tasks: Seq<TaskView>)
    requires
        ids_distinct(tasks),
    ensures
        decoded(encoded(tasks)) == Some(tasks),
        loaded(Some(encoded(tasks))) == tasks,
{
    let records = encoded(tasks);
    assert forall|i: int| 0 <= i < records.len() implies task_of(#[trigger] records[i]) == Some(
        tasks[i],
    ) by {
        lemma_record_round_trip(tasks[i]);
    }
}

/// What is loaded is a collection, whatever the store held, and it is the
/// empty one wherever the store held no collection: nothing that could be
/// read, a record whose status word names no status, an id of 0, or an id
/// twice.
pub proof fn lemma_loaded_or_empty(stored: Option<Seq<RecordView>>)
    ensures
        ids_distinct(loaded(stored)),
        stored.is_none() ==> loaded(stored).len() == 0,
        stored.is_some() && decoded(stored.unwrap()).is_none() ==> loaded(stored).len() == 0,
        stored.is_some() && decoded(stored.unwrap()).is_some() && !ids_distinct(
            decoded(stored.unwrap()).unwrap(),
        ) ==> loaded(stored).len() == 0,
        stored.is_some() && decoded(stored.unwrap()).is_some() && ids_distinct(
            decoded(stored.unwrap()).unwrap(),
        ) ==> loaded(stored) == decoded(stored.unwrap()).unwrap(),
{
}

/// An update changes the description and the time of last update of the
/// task with the id, and nothing else: every task keeps its id, its status
/// and its time of creation, and every other task stays as it is.
pub proof fn lemma_update_changes_only(
    tasks: Seq<TaskView>,
    id: u32,
    description: Seq<char>,
    now: Timestamp,
)
    ensures
        with_description(tasks, id, description, now).len() == tasks.len(),
        forall|i: int|
            0 <= i < tasks.len() ==> {
                let before = #[trigger] tasks[i];
                let after = with_description(tasks, id, description, now)[i];
                &&& after.id == before.id
                &&& after.status == before.status
                &&& after.created_at == before.created_at
                &&& before.id == id ==> after.description == description && after.updated_at
                    == now
                &&& before.id != id ==> after == before
            },
        ids_distinct(tasks) ==> ids_distinct(with_description(tasks, id, description, now)),
{
}

/// An update that names an id that no task has leaves the collection as it
/// is.
pub proof fn lemma_update_absent(
    tasks: Seq<TaskView>,
    id: u32,
    description: Seq<char>,
    now: Timestamp,
)
    requires
        !holds_id(tasks, id),
    ensures
        with_description(tasks, id, description, now) == tasks,
{
}

/// Setting a status changes the status and the time of last update of the
/// task with the id, and nothing else. Where no task has the id, the
/// collection stays as it is.
pub proof fn lemma_mark_changes_only(tasks: Seq<TaskView>, id: u32, status: Status, now: Timestamp)
    ensures
        with_status(tasks, id, status, now).len() == tasks.len(),
        forall|i: int|
            0 <= i < tasks.len() ==> {
                let before = #[trigger] tasks[i];
                let after = with_status(tasks, id, status, now)[i];
                &&& after.id == before.id
                &&& after.description == before.description
                &&& after.created_at == before.created_at
                &&& before.id == id ==> after.status == status && after.updated_at == now
                &&& before.id != id ==> after == before
            },
        !holds_id(tasks, id) ==> with_status(tasks, id, status, now) == tasks,
        ids_distinct(tasks) ==> ids_distinct(with_status(tasks, id, status, now)),
{
}

/// Setting the status that a task was given before changes nothing but its
/// time of last update: after the second setting every task has the status
/// it had after the first, and the task with the id was last updated at the
/// time of the second.
pub proof fn lemma_mark_again(
    tasks: Seq<TaskView>,
    id: u32,
    status: Status,
    first: Timestamp,
    second: Timestamp,
)
    ensures
        with_status(with_status(tasks, id, status, first), id, status, second) == with_status(
            tasks,
            id,
            status,
            second,
        ),
        forall|i: int|
            0 <= i < tasks.len() ==> {
                let once = #[trigger] with_status(tasks, id, status, first)[i];
                let twice = with_status(
                    with_status(tasks, id, status, first),
                    id,
                    status,
                    second,
                )[i];
                &&& twice.status == once.status
                &&& once.id == id ==> twice.status == status && twice.updated_at == second
                &&& once.id != id ==> twice == once
            },
{
}

/// Deleting takes out the task with the id and nothing else: the tasks
/// before it keep their places, the tasks behind it move up by one, and no
/// task has the id afterwards. Where no task has the id, the collection
/// stays as it is.
pub proof fn lemma_delete_removes_only(tasks: Seq<TaskView>, id: u32)
    requires
        ids_distinct(tasks),
    ensures
        !holds_id(without(tasks, id), id),
        ids_distinct(without(tasks, id)),
        !holds_id(tasks, id) ==> without(tasks, id) == tasks,
        holds_id(tasks, id) ==> {
            let at = position_of(tasks, id);
            &&& 0 <= at < tasks.len()
            &&& tasks[at].id == id
            &&& without(tasks, id).len() == tasks.len() - 1
            &&& forall|i: int| 0 <= i < at ==> #[trigger] without(tasks, id)[i] == tasks[i]
            &&& forall|i: int|
                at <= i < tasks.len() - 1 ==> #[trigger] without(tasks, id)[i] == tasks[i + 1]
        },
{
}

/// Whatever the command, what it leaves is a collection, and a report that
/// says that nothing changed is true: the collection is then the one that
/// the command found. `list` and a command that names an id that no task
/// has report so.
pub proof fn lemma_outcome_is_sound(command: CommandView, tasks: Seq<TaskView>, now: Timestamp)
    requires
        ids_distinct(tasks),
    ensures
        ids_distinct(outcome(command, tasks, now).0),
        !outcome(command, tasks, now).1.changed ==> outcome(command, tasks, now).0 == tasks,
        command is List ==> !outcome(command, tasks, now).1.changed,
        command matches CommandView::Update { id, .. } ==> (!holds_id(tasks, id) ==> outcome(
            command,
            tasks,
            now,
        ) == (tasks, said(not_found_text(id), false))),
{
    match command {
        CommandView::Add { description } => {
            if next_id(tasks) <= u32::MAX {
                lemma_added_id_is_new(tasks, description, now);
            }
        },
        CommandView::Update { id, description } => {
            lemma_update_changes_only(tasks, id, description, now);
        },
        CommandView::Delete { id } => {
            lemma_delete_removes_only(tasks, id);
        },
        CommandView::MarkInProgress { id } => {
            lemma_mark_changes_only(tasks, id, Status::InProgress, now);
        },
        CommandView::MarkDone { id } => {
            lemma_mark_changes_only(tasks, id, Status::Done, now);
        },
        CommandView::List => {},
    }
}

} // verus!
