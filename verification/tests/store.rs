use task_cli::store::{
    add_task, delete_task, load_tasks, mark_task, save_task, update_task, TaskList,
};
use task_cli::task::{Status, Task, TaskRecord};
use task_cli::time::Timestamp;

fn at(secs: i64) -> Timestamp {
    Timestamp::new(secs, 0).unwrap()
}

fn record(id: u32, description: &str, status: &str) -> TaskRecord {
    TaskRecord {
        id,
        description: description.to_string(),
        status: status.to_string(),
        created_at: at(100),
        updated_at: at(200),
    }
}

fn task(id: u32, description: &str) -> Task {
    Task {
        id,
        description: description.to_string(),
        status: Status::Todo,
        created_at: at(100),
        updated_at: at(100),
    }
}

#[test]
fn test_load_tasks() {
    let tasks = load_tasks(Some(Vec::new()));
    assert!(tasks.is_empty(), "Tasks should loaded successfully");
}

#[test]
fn test_add_task() {
    let stored: Option<Vec<TaskRecord>> = Some(Vec::new());
    let initial_task = load_tasks(stored.clone());
    let mut tasks = load_tasks(stored);
    add_task(&mut tasks, "Test Task".to_string(), at(1_700_000_000));
    let stored = Some(save_task(&tasks));
    let tasks = load_tasks(stored);
    assert_eq!(tasks.len(), initial_task.len() + 1);
    assert_eq!(tasks.last().unwrap().description, "Test Task");
}

#[test]
fn test_update_task() {
    let mut stored: Option<Vec<TaskRecord>> = Some(Vec::new());
    let mut tasks = load_tasks(stored.clone());
    if tasks.is_empty() {
        add_task(&mut tasks, "New Task".to_string(), at(1_700_000_000));
        stored = Some(save_task(&tasks));
        tasks = load_tasks(stored.clone());
    }
    let id = tasks.last().unwrap().id;
    let mut loaded = load_tasks(stored);
    update_task(&mut loaded, id, "Updated Task".to_string(), at(1_700_000_001));
    let stored = Some(save_task(&loaded));
    let updated_task =
        load_tasks(stored).tasks().iter().find(|t| t.id == id).unwrap().clone();
    assert_eq!(updated_task.description, "Updated Task");
}

#[test]
fn new_collection_is_empty() {
    let tasks = TaskList::new();
    assert!(tasks.is_empty());
    assert_eq!(tasks.len(), 0);
    assert!(tasks.last().is_none());
    assert!(tasks.get(0).is_none());
    assert_eq!(tasks.next_id(), Some(1));
    assert_eq!(tasks.position(1), None);
}

#[test]
fn ids_count_up_from_one() {
    let mut tasks = TaskList::new();
    for expected in 1..=50u32 {
        let id = add_task(&mut tasks, format!("task {}", expected), at(expected as i64));
        assert_eq!(id, Some(expected));
    }
    assert_eq!(tasks.len(), 50);
    for (i, t) in tasks.tasks().iter().enumerate() {
        assert_eq!(t.id as usize, i + 1);
        assert_eq!(t.description, format!("task {}", i + 1));
        assert_eq!(t.status, Status::Todo);
        assert_eq!(t.created_at, at(i as i64 + 1));
        assert_eq!(t.updated_at, at(i as i64 + 1));
    }
}

#[test]
fn added_task_starts_as_todo_with_both_times_set() {
    let mut tasks = TaskList::new();
    let now = Timestamp::new(1_700_000_000, 123_456_789).unwrap();
    assert_eq!(add_task(&mut tasks, "Buy milk".to_string(), now), Some(1));
    assert_eq!(
        tasks.get(0),
        Some(&Task {
            id: 1,
            description: "Buy milk".to_string(),
            status: Status::Todo,
            created_at: now,
            updated_at: now,
        })
    );
}

#[test]
fn next_id_follows_the_largest_id_not_the_last() {
    let mut tasks =
        TaskList::from_tasks(vec![task(7, "seven"), task(3, "three")]).unwrap();
    assert_eq!(tasks.next_id(), Some(8));
    assert_eq!(add_task(&mut tasks, "eight".to_string(), at(5)), Some(8));
    let ids: Vec<u32> = tasks.tasks().iter().map(|t| t.id).collect();
    assert_eq!(ids, vec![7, 3, 8]);
}

#[test]
fn add_is_refused_when_no_id_is_left() {
    let mut tasks = TaskList::from_tasks(vec![task(u32::MAX, "last")]).unwrap();
    assert_eq!(tasks.next_id(), None);
    assert_eq!(add_task(&mut tasks, "one more".to_string(), at(5)), None);
    assert_eq!(tasks.len(), 1);
    assert_eq!(tasks.get(0), Some(&task(u32::MAX, "last")));
}

#[test]
fn id_below_the_largest_is_not_given_again_after_delete() {
    let mut tasks = TaskList::new();
    add_task(&mut tasks, "a".to_string(), at(1));
    add_task(&mut tasks, "b".to_string(), at(2));
    add_task(&mut tasks, "c".to_string(), at(3));
    assert!(delete_task(&mut tasks, 2));
    assert_eq!(add_task(&mut tasks, "d".to_string(), at(4)), Some(4));
    let ids: Vec<u32> = tasks.tasks().iter().map(|t| t.id).collect();
    assert_eq!(ids, vec![1, 3, 4]);
}

#[test]
fn update_changes_description_and_update_time_only() {
    let mut tasks = TaskList::new();
    add_task(&mut tasks, "Buy milk".to_string(), at(10));
    add_task(&mut tasks, "Walk dog".to_string(), at(20));
    assert!(mark_task(&mut tasks, 1, Status::InProgress, at(30)));
    let other = tasks.get(1).unwrap().clone();
    assert!(update_task(&mut tasks, 1, "Buy oat milk".to_string(), at(40)));
    assert_eq!(
        tasks.get(0),
        Some(&Task {
            id: 1,
            description: "Buy oat milk".to_string(),
            status: Status::InProgress,
            created_at: at(10),
            updated_at: at(40),
        })
    );
    assert_eq!(tasks.get(1), Some(&other));
    assert_eq!(tasks.len(), 2);
}

#[test]
fn update_of_absent_id_changes_nothing() {
    let mut tasks = TaskList::new();
    add_task(&mut tasks, "Buy milk".to_string(), at(10));
    add_task(&mut tasks, "Walk dog".to_string(), at(20));
    let before = save_task(&tasks);
    assert!(!update_task(&mut tasks, 3, "Nothing".to_string(), at(30)));
    assert!(!update_task(&mut tasks, 0, "Nothing".to_string(), at(30)));
    assert_eq!(save_task(&tasks), before);
}

#[test]
fn mark_done_twice_keeps_done_and_refreshes_update_time() {
    let mut tasks = TaskList::new();
    add_task(&mut tasks, "Buy milk".to_string(), at(10));
    assert!(mark_task(&mut tasks, 1, Status::Done, at(20)));
    assert_eq!(tasks.get(0).unwrap().status, Status::Done);
    assert_eq!(tasks.get(0).unwrap().updated_at, at(20));
    assert!(mark_task(&mut tasks, 1, Status::Done, at(30)));
    assert_eq!(
        tasks.get(0),
        Some(&Task {
            id: 1,
            description: "Buy milk".to_string(),
            status: Status::Done,
            created_at: at(10),
            updated_at: at(30),
        })
    );
}

#[test]
fn any_status_may_follow_any_other() {
    let mut tasks = TaskList::new();
    add_task(&mut tasks, "Buy milk".to_string(), at(10));
    assert!(mark_task(&mut tasks, 1, Status::Done, at(20)));
    assert!(mark_task(&mut tasks, 1, Status::InProgress, at(30)));
    assert_eq!(tasks.get(0).unwrap().status, Status::InProgress);
    assert!(mark_task(&mut tasks, 1, Status::Todo, at(40)));
    assert_eq!(tasks.get(0).unwrap().status, Status::Todo);
    assert_eq!(tasks.get(0).unwrap().created_at, at(10));
    assert_eq!(tasks.get(0).unwrap().updated_at, at(40));
}

#[test]
fn mark_of_absent_id_changes_nothing() {
    let mut tasks = TaskList::new();
    add_task(&mut tasks, "Buy milk".to_string(), at(10));
    let before = save_task(&tasks);
    assert!(!mark_task(&mut tasks, 2, Status::Done, at(20)));
    assert_eq!(save_task(&tasks), before);
}

#[test]
fn delete_removes_one_task_and_keeps_the_order() {
    let mut tasks = TaskList::new();
    add_task(&mut tasks, "a".to_string(), at(1));
    add_task(&mut tasks, "b".to_string(), at(2));
    add_task(&mut tasks, "c".to_string(), at(3));
    assert!(delete_task(&mut tasks, 2));
    let left: Vec<(u32, String)> =
        tasks.tasks().iter().map(|t| (t.id, t.description.clone())).collect();
    assert_eq!(left, vec![(1, "a".to_string()), (3, "c".to_string())]);
    assert_eq!(tasks.position(2), None);
    assert_eq!(tasks.position(3), Some(1));
}

#[test]
fn delete_of_absent_id_changes_nothing() {
    let mut tasks = TaskList::new();
    add_task(&mut tasks, "a".to_string(), at(1));
    let before = save_task(&tasks);
    assert!(!delete_task(&mut tasks, 9));
    assert_eq!(save_task(&tasks), before);
    let mut empty = TaskList::new();
    assert!(!delete_task(&mut empty, 1));
    assert!(empty.is_empty());
}

#[test]
fn from_tasks_refuses_id_zero_and_repeated_ids() {
    assert!(TaskList::from_tasks(vec![task(0, "zero")]).is_none());
    assert!(TaskList::from_tasks(vec![task(1, "a"), task(2, "b"), task(1, "c")]).is_none());
    assert!(TaskList::from_tasks(vec![task(2, "a"), task(2, "b")]).is_none());
    let kept = TaskList::from_tasks(vec![task(5, "a"), task(2, "b")]).unwrap();
    assert_eq!(kept.tasks(), &vec![task(5, "a"), task(2, "b")]);
    assert!(TaskList::from_tasks(Vec::new()).unwrap().is_empty());
}

#[test]
fn loading_nothing_gives_the_empty_collection() {
    assert!(load_tasks(None).is_empty());
}

#[test]
fn loading_what_is_no_collection_gives_the_empty_collection() {
    assert!(load_tasks(Some(vec![record(1, "a", "todo"), record(2, "b", "finished")])).is_empty());
    assert!(load_tasks(Some(vec![record(1, "a", "todo"), record(1, "b", "done")])).is_empty());
    assert!(load_tasks(Some(vec![record(0, "a", "todo")])).is_empty());
    assert!(load_tasks(Some(vec![record(1, "a", "Todo")])).is_empty());
    assert!(load_tasks(Some(vec![record(1, "a", "")])).is_empty());
}

#[test]
fn loading_reads_each_record() {
    let tasks = load_tasks(Some(vec![
        record(4, "a", "todo"),
        record(2, "b", "in-progress"),
        record(9, "c", "done"),
    ]));
    let read: Vec<(u32, String, Status, Timestamp, Timestamp)> = tasks
        .tasks()
        .iter()
        .map(|t| (t.id, t.description.clone(), t.status, t.created_at, t.updated_at))
        .collect();
    assert_eq!(
        read,
        vec![
            (4, "a".to_string(), Status::Todo, at(100), at(200)),
            (2, "b".to_string(), Status::InProgress, at(100), at(200)),
            (9, "c".to_string(), Status::Done, at(100), at(200)),
        ]
    );
}

#[test]
fn saving_writes_each_task_as_a_record() {
    let mut tasks = TaskList::new();
    add_task(&mut tasks, "Buy milk".to_string(), at(10));
    add_task(&mut tasks, "Walk dog".to_string(), at(20));
    mark_task(&mut tasks, 2, Status::InProgress, at(30));
    assert_eq!(
        save_task(&tasks),
        vec![
            TaskRecord {
                id: 1,
                description: "Buy milk".to_string(),
                status: "todo".to_string(),
                created_at: at(10),
                updated_at: at(10),
            },
            TaskRecord {
                id: 2,
                description: "Walk dog".to_string(),
                status: "in-progress".to_string(),
                created_at: at(20),
                updated_at: at(30),
            },
        ]
    );
    assert_eq!(save_task(&TaskList::new()), Vec::new());
}

#[test]
fn saved_collection_loads_back_equal() {
    let mut tasks = TaskList::new();
    add_task(&mut tasks, "Buy milk".to_string(), at(10));
    let before_epoch = Timestamp::new(-5, 999_999_999).unwrap();
    add_task(&mut tasks, "Walk \"the\" dog\n".to_string(), before_epoch);
    add_task(&mut tasks, String::new(), at(30));
    mark_task(&mut tasks, 2, Status::Done, at(40));
    mark_task(&mut tasks, 3, Status::InProgress, at(50));
    delete_task(&mut tasks, 1);
    let back = load_tasks(Some(save_task(&tasks)));
    assert_eq!(back.tasks(), tasks.tasks());
    assert_eq!(back.len(), 2);
}

#[test]
fn loading_many_tasks_keeps_them_all() {
    let records: Vec<TaskRecord> =
        (1..=100_000u32).map(|id| record(id, "task", "todo")).collect();
    let mut tasks = load_tasks(Some(records));
    assert_eq!(tasks.len(), 100_000);
    assert_eq!(tasks.next_id(), Some(100_001));
    assert_eq!(tasks.position(100_000), Some(99_999));
    assert_eq!(add_task(&mut tasks, "one more".to_string(), at(1)), Some(100_001));
    assert_eq!(tasks.last().unwrap().id, 100_001);
}

#[test]
fn loading_accepts_distinct_ids_in_any_order() {
    let tasks = load_tasks(Some(vec![
        record(3, "c", "todo"),
        record(1, "a", "todo"),
        record(2, "b", "todo"),
    ]));
    let ids: Vec<u32> = tasks.tasks().iter().map(|t| t.id).collect();
    assert_eq!(ids, vec![3, 1, 2]);
    assert_eq!(tasks.next_id(), Some(4));
    assert!(load_tasks(Some(vec![
        record(3, "c", "todo"),
        record(1, "a", "todo"),
        record(3, "b", "todo"),
    ]))
    .is_empty());
    assert!(load_tasks(Some(vec![record(3, "c", "todo"), record(0, "a", "todo")])).is_empty());
}
