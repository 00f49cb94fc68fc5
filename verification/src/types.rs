//! Shared identifiers and the task model.

use vstd::prelude::*;

verus! {

/// Unique identifier of a task.
pub type TaskId = u64;

/// Unique identifier of a robot (a worker thread).
pub type RobotId = u64;

/// Unique identifier of a zone (an exclusive resource).
pub type ZoneId = u64;

/// Unit of work handed to robots.
#[derive(Clone, Debug, PartialEq, Eq)]
pub struct Task {
    /// Stable identifier, unique within a run.
    pub id: TaskId,
    /// Human-readable description.
    pub description: String,
}

/// Mathematical model of a [`Task`].
pub struct TaskView {
    pub id: u64,
    pub description: Seq<char>,
}

impl View for Task {
    type V = TaskView;

    open spec fn view(&self) -> TaskView {
        TaskView { id: self.id, description: self.description@ }
    }
}

impl Task {
    /// Builds a task from its identifier and description.
    pub fn new(id: TaskId, description: &str) -> (task: Task)
        ensures
            task@ == (TaskView { id: id, description: description@ }),
    {
        Task { id, description: description.to_owned() }
    }
}

} // verus!
