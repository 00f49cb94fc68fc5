use project_blaze::task_queue::TaskQueue;
use project_blaze::task_queue::TaskQueueState;
use project_blaze::types::Task;
use std::collections::HashSet;

#[test]
fn push_fails_after_close() {
    let queue = TaskQueue::new();
    queue.close();
    let result = queue.push(Task::new(1, "late"));
    assert!(result.is_err());
}

#[test]
fn refused_task_comes_back_unchanged() {
    let queue = TaskQueue::new();
    queue.close();
    let result = queue.push(Task::new(7, "late"));
    assert_eq!(result, Err(Task::new(7, "late")));
    assert_eq!(queue.len(), 0);
}

#[test]
fn every_task_is_popped_once_in_order() {
    let queue = TaskQueue::new();
    let total_tasks: u64 = 100;
    for id in 0..total_tasks {
        assert!(queue.push(Task::new(id, &format!("task-{id}"))).is_ok());
    }
    assert_eq!(queue.len(), 100);
    let mut seen: HashSet<u64> = HashSet::new();
    let mut expected: u64 = 0;
    loop {
        let task = match queue.try_pop() {
            Some(task) => task,
            None => break,
        };
        assert_eq!(task.id, expected);
        assert_eq!(task.description, format!("task-{expected}"));
        assert!(seen.insert(task.id));
        expected += 1;
    }
    assert_eq!(seen.len(), 100);
    assert_eq!(queue.len(), 0);
}

#[test]
fn try_pop_on_empty_queue_returns_nothing() {
    let queue = TaskQueue::new();
    assert!(queue.try_pop().is_none());
    queue.close();
    assert!(queue.try_pop().is_none());
}

#[test]
fn blocking_pop_returns_queued_task_at_once() {
    let queue = TaskQueue::new();
    assert!(queue.push(Task::new(99, "wake")).is_ok());
    let task = queue.pop_blocking_or_closed();
    assert_eq!(task, Some(Task::new(99, "wake")));
    assert_eq!(queue.len(), 0);
}

#[test]
fn blocking_pop_returns_nothing_once_closed_and_drained() {
    let queue = TaskQueue::new();
    queue.close();
    assert!(queue.pop_blocking_or_closed().is_none());
    assert!(queue.pop_blocking_or_closed().is_none());
}

#[test]
fn close_keeps_queued_tasks_for_consumers() {
    let queue = TaskQueue::new();
    assert!(queue.push(Task::new(1, "a")).is_ok());
    assert!(queue.push(Task::new(2, "b")).is_ok());
    queue.close();
    assert!(queue.push(Task::new(3, "c")).is_err());
    assert_eq!(queue.len(), 2);
    assert_eq!(queue.pop_blocking_or_closed().map(|task| task.id), Some(1));
    assert_eq!(queue.try_pop().map(|task| task.id), Some(2));
    assert!(queue.pop_blocking_or_closed().is_none());
}

#[test]
fn close_is_idempotent() {
    let queue = TaskQueue::new();
    queue.close();
    queue.close();
    assert!(queue.push(Task::new(1, "late")).is_err());
    assert!(queue.pop_blocking_or_closed().is_none());
}

#[test]
fn queue_state_follows_its_model() {
    let mut state = TaskQueueState::new();
    assert_eq!(state.len(), 0);
    assert!(!state.is_closed());
    assert!(state.must_wait());
    assert_eq!(state.push(Task::new(4, "four")), Ok(()));
    assert!(!state.must_wait());
    assert_eq!(state.push(Task::new(5, "five")), Ok(()));
    assert_eq!(state.len(), 2);
    assert_eq!(state.try_pop(), Some(Task::new(4, "four")));
    assert_eq!(state.len(), 1);
    state.close();
    assert!(state.is_closed());
    assert!(!state.must_wait());
    assert_eq!(state.push(Task::new(6, "six")), Err(Task::new(6, "six")));
    assert_eq!(state.len(), 1);
    assert_eq!(state.try_pop(), Some(Task::new(5, "five")));
    assert_eq!(state.try_pop(), None);
    assert!(!state.must_wait());
    assert!(state.is_closed());
}

#[test]
fn delivered_ids_equal_accepted_ids_for_mixed_consumers() {
    let queue = TaskQueue::new();
    let mut accepted: Vec<u64> = Vec::new();
    let mut delivered: Vec<u64> = Vec::new();
    for id in 0..6u64 {
        if queue.push(Task::new(id, "first")).is_ok() {
            accepted.push(id);
        }
    }
    for turn in 0..4 {
        let task = if turn % 2 == 0 { queue.try_pop() } else { queue.pop_blocking_or_closed() };
        delivered.push(task.expect("a task is queued").id);
    }
    for id in 6..9u64 {
        if queue.push(Task::new(id, "second")).is_ok() {
            accepted.push(id);
        }
    }
    queue.close();
    assert!(queue.push(Task::new(9, "late")).is_err());
    while let Some(task) = queue.pop_blocking_or_closed() {
        delivered.push(task.id);
    }
    assert_eq!(delivered, accepted);
    assert_eq!(delivered, vec![0, 1, 2, 3, 4, 5, 6, 7, 8]);
    assert_eq!(queue.len(), 0);
}
