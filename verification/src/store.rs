//! The task collection and the operations that change it.
//!
//! A collection keeps its tasks in the order in which they were added. No
//! two of its tasks share an id, and every id is at least 1. A new task gets
//! the id that follows the largest id present.

use crate::task::{record_of, task_of, RecordView, Status, Task, TaskRecord, TaskView};
use crate::time::Timestamp;
use vstd::prelude::*;

verus! {

/// The views of a sequence of tasks.
pub open spec fn views(tasks: Seq<Task>) -> Seq<TaskView> {
    tasks.map_values(|task: Task| task@)
}

/// The views of a sequence of records.
pub open spec fn record_views(records: Seq<TaskRecord>) -> Seq<RecordView> {
    records.map_values(|record: TaskRecord| record@)
}

/// Every id is at least 1, and no id occurs twice.
pub open spec fn ids_distinct(tasks: Seq<TaskView>) -> bool {
    &&& forall|i: int| 0 <= i < tasks.len() ==> (#[trigger] tasks[i]).id >= 1
    &&& forall|i: int, j: int|
        0 <= i < j < tasks.len() ==> (#[trigger] tasks[i]).id != (#[trigger] tasks[j]).id
}

/// The ids grow along the sequence, and the first is at least 1. This is
/// how a collection stands that was only changed by the operations here.
pub open spec fn ids_ascending(tasks: Seq<TaskView>) -> bool {
    &&& forall|i: int| 0 <= i < tasks.len() ==> (#[trigger] tasks[i]).id >= 1
    &&& forall|i: int, j: int|
        0 <= i < j < tasks.len() ==> (#[trigger] tasks[i]).id < (#[trigger] tasks[j]).id
}

/// The largest id among `tasks`; 0 where there is none.
pub open spec fn max_id(tasks: Seq<TaskView>) -> nat
    decreases tasks.len(),
{
    if tasks.len() == 0 {
        0
    } else {
        let before = max_id(tasks.drop_last());
        if tasks.last().id > before {
            tasks.last().id as nat
        } else {
            before
        }
    }
}

/// The id that the next new task gets.
pub open spec fn next_id(tasks: Seq<TaskView>) -> nat {
    max_id(tasks) + 1
}

/// Whether some task of `tasks` has the id `id`.
pub open spec fn holds_id(tasks: Seq<TaskView>, id: u32) -> bool {
    exists|i: int| 0 <= i < tasks.len() && (#[trigger] tasks[i]).id == id
}

/// A position at which `tasks` has the id `id`, where it holds that id.
pub open spec fn position_of(tasks: Seq<TaskView>, id: u32) -> int {
    choose|i: int| 0 <= i < tasks.len() && (#[trigger] tasks[i]).id == id
}

/// The task that `add_task` makes.
pub open spec fn new_task(id: u32, description: Seq<char>, now: Timestamp) -> TaskView {
    TaskView { id, description, status: Status::Todo, created_at: now, updated_at: now }
}

/// `tasks` with a new task at its end.
pub open spec fn with_added(tasks: Seq<TaskView>, description: Seq<char>, now: Timestamp) -> Seq<
    TaskView,
> {
    tasks.push(new_task(next_id(tasks) as u32, description, now))
}

/// `tasks` with the description of every task that has the id `id` replaced,
/// and its time of last update set to `now`.
pub open spec fn with_description(
    tasks: Seq<TaskView>,
    id: u32,
    description: Seq<char>,
    now: Timestamp,
) -> Seq<TaskView> {
    Seq::new(
        tasks.len(),
        |i: int|
            if tasks[i].id == id {
                TaskView { description, updated_at: now, ..tasks[i] }
            } else {
                tasks[i]
            },
    )
}

/// `tasks` with the status of every task that has the id `id` replaced, and
/// its time of last update set to `now`.
pub open spec fn with_status(tasks: Seq<TaskView>, id: u32, status: Status, now: Timestamp) -> Seq<
    TaskView,
> {
    Seq::new(
        tasks.len(),
        |i: int|
            if tasks[i].id == id {
                TaskView { status, updated_at: now, ..tasks[i] }
            } else {
                tasks[i]
            },
    )
}

/// `tasks` without the task that has the id `id`; the others keep their
/// order.
pub open spec fn without(tasks: Seq<TaskView>, id: u32) -> Seq<TaskView> {
    if holds_id(tasks, id) {
        tasks.remove(position_of(tasks, id))
    } else {
        tasks
    }
}

/// The records that store `tasks`, in order.
pub open spec fn encoded(tasks: Seq<TaskView>) -> Seq<RecordView> {
    tasks.map_values(|task: TaskView| record_of(task))
}

/// The tasks that `records` store, in order, if every status word among
/// them names a status.
pub open spec fn decoded(records: Seq<RecordView>) -> Option<Seq<TaskView>> {
    if forall|i: int| 0 <= i < records.len() ==> task_of(#[trigger] records[i]).is_some() {
        Some(records.map_values(|record: RecordView| task_of(record).unwrap()))
    } else {
        None
    }
}

/// The collection that loading yields from what the store held: the stored
/// tasks where they make a collection, and the empty collection where the
/// store held nothing that could be read, a status word that names no
/// status, an id of 0, or an id twice.
pub open spec fn loaded(stored: Option<Seq<RecordView>>) -> Seq<TaskView> {
    match stored {
        Some(records) => match decoded(records) {
            Some(tasks) => if ids_distinct(tasks) {
                tasks
            } else {
                Seq::empty()
            },
            None => Seq::empty(),
        },
        None => Seq::empty(),
    }
}

/// The views of optional records.
pub open spec fn stored_views(stored: Option<Vec<TaskRecord>>) -> Option<Seq<RecordView>> {
    match stored {
        Some(records) => Some(record_views(records@)),
        None => None,
    }
}

/// No id is above the largest.
pub proof fn lemma_max_id_bounds(tasks: Seq<TaskView>, i: int)
    requires
        0 <= i < tasks.len(),
    ensures
        tasks[i].id <= max_id(tasks),
    decreases tasks.len(),
{
    if i < tasks.len() - 1 {
        lemma_max_id_bounds(tasks.drop_last(), i);
    }
}

/// Whether the ids grow along `tasks` and the first is at least 1.
fn ids_grow(tasks: &Vec<Task>) -> (grow: bool)
    ensures
        grow == ids_ascending(views(tasks@)),
{
    let ghost all = views(tasks@);
    let n = tasks.len();
    if n == 0 {
        return true;
    }
    if tasks[0].id == 0 {
        assert(all[0].id == 0);
        return false;
    }
    let mut i: usize = 1;
    while i < n
        invariant
            1 <= i <= n,
            n == tasks.len(),
            all == views(tasks@),
            ids_ascending(all.take(i as int)),
        decreases n - i,
    {
        if tasks[i].id <= tasks[i - 1].id {
            assert(all[i as int].id <= all[i - 1].id);
            return false;
        }
        proof {
            // The id at `i` is above the one before it, which is above all
            // that come earlier.
            let shorter = all.take(i as int);
            let longer = all.take(i + 1);
            assert forall|a: int, b: int| 0 <= a < b < longer.len() implies (
            #[trigger] longer[a]).id < (#[trigger] longer[b]).id by {
                if b == i && a < i - 1 {
                    assert(shorter[a].id < shorter[i - 1].id);
                }
            }
        }
        i = i + 1;
    }
    assert(all.take(i as int) == all);
    true
}

/// The ordered collection of tasks.
pub struct TaskList {
    tasks: Vec<Task>,
}

impl View for TaskList {
    type V = Seq<TaskView>;

    closed spec fn view(&self) -> Seq<TaskView> {
        views(self.tasks@)
    }
}

impl TaskList {
    #[verifier::type_invariant]
    spec fn well_formed(self) -> bool {
        ids_distinct(views(self.tasks@))
    }

    /// The empty collection.
    pub fn new() -> (list: TaskList)
        ensures
            list@ == Seq::<TaskView>::empty(),
    {
        TaskList { tasks: Vec::new() }
    }

    /// The collection of the given tasks, in their order; `None` where an
    /// id is 0 or occurs twice.
    pub fn from_tasks(tasks: Vec<Task>) -> (list: Option<TaskList>)
        ensures
            list.is_some() == ids_distinct(views(tasks@)),
            list.is_some() ==> list.unwrap()@ == views(tasks@),
    {
        // Ids that grow are distinct; only where they do not is each id
        // held against those before it.
        if ids_grow(&tasks) {
            return Some(TaskList { tasks });
        }
        let ghost all = views(tasks@);
        let n = tasks.len();
        let mut j: usize = 0;
        while j < n
            invariant
                j <= n,
                n == tasks.len(),
                all == views(tasks@),
                ids_distinct(all.take(j as int)),
            decreases n - j,
        {
            if tasks[j].id == 0 {
                return None;
            }
            let mut i: usize = 0;
            while i < j
                invariant
                    i <= j < n,
                    n == tasks.len(),
                    all == views(tasks@),
                    forall|k: int| 0 <= k < i ==> (#[trigger] all[k]).id != all[j as int].id,
                decreases j - i,
            {
                if tasks[i].id == tasks[j].id {
                    assert(all[i as int].id == all[j as int].id);
                    return None;
                }
                i = i + 1;
            }
            j = j + 1;
        }
        assert(all.take(j as int) == all);
        Some(TaskList { tasks })
    }

    /// The number of tasks.
    pub fn len(&self) -> (n: usize)
        ensures
            n == self@.len(),
    {
        self.tasks.len()
    }

    /// Whether there is no task.
    pub fn is_empty(&self) -> (empty: bool)
        ensures
            empty == (self@.len() == 0),
    {
        self.tasks.len() == 0
    }

    /// The tasks, in order.
    pub fn tasks(&self) -> (tasks: &Vec<Task>)
        ensures
            views(tasks@) == self@,
            ids_distinct(self@),
    {
        proof {
            use_type_invariant(self);
        }
        &self.tasks
    }

    /// The task at position `i`, if there is one.
    pub fn get(&self, i: usize) -> (task: Option<&Task>)
        ensures
            i < self@.len() ==> task.is_some() && task.unwrap()@ == self@[i as int],
            i >= self@.len() ==> task.is_none(),
    {
        if i < self.tasks.len() {
            Some(&self.tasks[i])
        } else {
            None
        }
    }

    /// The task added last, if there is one.
    pub fn last(&self) -> (task: Option<&Task>)
        ensures
            self@.len() > 0 ==> task.is_some() && task.unwrap()@ == self@.last(),
            self@.len() == 0 ==> task.is_none(),
    {
        let n = self.tasks.len();
        if n > 0 {
            Some(&self.tasks[n - 1])
        } else {
            None
        }
    }

    /// The position of the task with the id `id`, if there is one.
    pub fn position(&self, id: u32) -> (at: Option<usize>)
        ensures
            at.is_some() == holds_id(self@, id),
            at.is_some() ==> at.unwrap() == position_of(self@, id),
            at.is_some() ==> at.unwrap() < self@.len() && self@[at.unwrap() as int].id == id,
    {
        proof {
            use_type_invariant(self);
        }
        let mut i: usize = 0;
        while i < self.tasks.len()
            invariant
                i <= self.tasks.len(),
                ids_distinct(self@),
                forall|j: int| 0 <= j < i ==> (#[trigger] self@[j]).id != id,
            decreases self.tasks.len() - i,
        {
            if self.tasks[i].id == id {
                assert(self@[i as int].id == id);
                return Some(i);
            }
            i = i + 1;
        }
        None
    }

    /// The id that the next new task gets, if there is one left.
    pub fn next_id(&self) -> (id: Option<u32>)
        ensures
            next_id(self@) <= u32::MAX ==> id == Some(next_id(self@) as u32),
            next_id(self@) > u32::MAX ==> id.is_none(),
    {
        let mut largest: u32 = 0;
        let mut i: usize = 0;
        while i < self.tasks.len()
            invariant
                i <= self.tasks.len(),
                largest == max_id(self@.take(i as int)),
            decreases self.tasks.len() - i,
        {
            assert(self@.take(i + 1).drop_last() == self@.take(i as int));
            if self.tasks[i].id > largest {
                largest = self.tasks[i].id;
            }
            i = i + 1;
        }
        assert(self@.take(i as int) == self@);
        if largest < u32::MAX {
            Some(largest + 1)
        } else {
            None
        }
    }
}

/// Adds a task with the given description: status `Todo`, created and last
/// updated at `now`, with the id that follows the largest id present.
///
/// Returns the id of the new task. Where the largest id present is the
/// largest that 32 bits hold, nothing is added and `None` is returned.
pub fn add_task(tasks: &mut TaskList, description: String, now: Timestamp) -> (id: Option<u32>)
    ensures
        id.is_some() == (next_id(old(tasks)@) <= u32::MAX),
        id.is_some() ==> id.unwrap() == next_id(old(tasks)@),
        id.is_some() ==> final(tasks)@ == with_added(old(tasks)@, description@, now),
        id.is_none() ==> final(tasks)@ == old(tasks)@,
        ids_distinct(final(tasks)@),
{
    proof {
        use_type_invariant(&*tasks);
    }
    match tasks.next_id() {
        Some(id) => {
            let ghost before = tasks@;
            let mut all: Vec<Task> = Vec::new();
            std::mem::swap(&mut all, &mut tasks.tasks);
            all.push(Task::new(id, description, now));
            proof {
                assert(views(all@) == with_added(before, description@, now));
                assert forall|i: int| 0 <= i < before.len() implies (#[trigger] before[i]).id
                    < id by {
                    lemma_max_id_bounds(before, i);
                }
            }
            tasks.tasks = all;
            Some(id)
        },
        None => None,
    }
}

/// Replaces the description of the task with the id `id` and sets its time
/// of last update to `now`. Its id, its status and its time of creation stay
/// as they are, and so does every other task.
///
/// Returns whether there is such a task. Where there is none, the
/// collection stays as it is.
pub fn update_task(tasks: &mut TaskList, id: u32, description: String, now: Timestamp) -> (found:
    bool)
    ensures
        found == holds_id(old(tasks)@, id),
        final(tasks)@ == with_description(old(tasks)@, id, description@, now),
        !found ==> final(tasks)@ == old(tasks)@,
        ids_distinct(final(tasks)@),
{
    proof {
        use_type_invariant(&*tasks);
    }
    let ghost before = tasks@;
    match tasks.position(id) {
        Some(at) => {
            let mut all: Vec<Task> = Vec::new();
            std::mem::swap(&mut all, &mut tasks.tasks);
            all[at].description = description;
            all[at].updated_at = now;
            assert(views(all@) == with_description(before, id, description@, now));
            tasks.tasks = all;
            true
        },
        None => false,
    }
}

/// Sets the status of the task with the id `id` and its time of last update
/// to `now`. Its id, its description and its time of creation stay as they
/// are, and so does every other task. The status it had does not matter.
///
/// Returns whether there is such a task. Where there is none, the
/// collection stays as it is.
pub fn mark_task(tasks: &mut TaskList, id: u32, status: Status, now: Timestamp) -> (found: bool)
    ensures
        found == holds_id(old(tasks)@, id),
        final(tasks)@ == with_status(old(tasks)@, id, status, now),
        !found ==> final(tasks)@ == old(tasks)@,
        ids_distinct(final(tasks)@),
{
    proof {
        use_type_invariant(&*tasks);
    }
    let ghost before = tasks@;
    match tasks.position(id) {
        Some(at) => {
            let mut all: Vec<Task> = Vec::new();
            std::mem::swap(&mut all, &mut tasks.tasks);
            all[at].status = status;
            all[at].updated_at = now;
            assert(views(all@) == with_status(before, id, status, now));
            tasks.tasks = all;
            true
        },
        None => false,
    }
}

/// Removes the task with the id `id`. The other tasks stay as they are, in
/// their order.
///
/// Returns whether there was such a task. Where there was none, the
/// collection stays as it is.
pub fn delete_task(tasks: &mut TaskList, id: u32) -> (found: bool)
    ensures
        found == holds_id(old(tasks)@, id),
        final(tasks)@ == without(old(tasks)@, id),
        !found ==> final(tasks)@ == old(tasks)@,
        ids_distinct(final(tasks)@),
{
    proof {
        use_type_invariant(&*tasks);
    }
    let ghost before = tasks@;
    match tasks.position(id) {
        Some(at) => {
            let mut all: Vec<Task> = Vec::new();
            std::mem::swap(&mut all, &mut tasks.tasks);
            let _ = all.remove(at);
            assert(views(all@) == before.remove(at as int));
            tasks.tasks = all;
            true
        },
        None => false,
    }
}

/// The collection held by the store, given the records that were read from
/// it, or `None` where nothing could be read.
///
/// Where nothing was read, or what was read is no collection (a status word
/// that names no status, an id of 0, an id twice), the result is the empty
/// collection.
pub fn load_tasks(stored: Option<Vec<TaskRecord>>) -> (tasks: TaskList)
    ensures
        tasks@ == loaded(stored_views(stored)),
        stored.is_none() ==> tasks@.len() == 0,
        ids_distinct(tasks@),
{
    let records = match stored {
        Some(records) => records,
        None => {
            return TaskList::new();
        },
    };
    let ghost stored_records = record_views(records@);
    let mut read: Vec<Task> = Vec::new();
    let mut i: usize = 0;
    while i < records.len()
        invariant
            i <= records.len(),
            stored_records == record_views(records@),
            stored_views(stored) == Some(stored_records),
            read.len() == i,
            forall|k: int|
                0 <= k < i ==> task_of(#[trigger] stored_records[k]) == Some(views(read@)[k]),
        decreases records.len() - i,
    {
        match Task::from_record(&records[i]) {
            Some(task) => {
                read.push(task);
            },
            None => {
                assert(task_of(stored_records[i as int]).is_none());
                return TaskList::new();
            },
        }
        i = i + 1;
    }
    assert(decoded(stored_records) == Some(views(read@)));
    match TaskList::from_tasks(read) {
        Some(tasks) => {
            proof {
                use_type_invariant(&tasks);
            }
            tasks
        },
        None => TaskList::new(),
    }
}

/// The records that store the collection, in its order.
pub fn save_task(tasks: &TaskList) -> (records: Vec<TaskRecord>)
    ensures
        record_views(records@) == encoded(tasks@),
{
    let mut records: Vec<TaskRecord> = Vec::new();
    let mut i: usize = 0;
    while i < tasks.tasks.len()
        invariant
            i <= tasks.tasks.len(),
            record_views(records@) == encoded(tasks@.take(i as int)),
        decreases tasks.tasks.len() - i,
    {
        records.push(tasks.tasks[i].to_record());
        proof {
            let longer = tasks@.take(i + 1);
            assert(longer.drop_last() == tasks@.take(i as int));
            assert(encoded(longer) == encoded(longer.drop_last()).push(
                record_of(longer[i as int]),
            ));
        }
        i = i + 1;
    }
    records
}

} // verus!
