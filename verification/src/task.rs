use vstd::prelude::*;

verus! {

/// The path parameter that names one task.
#[derive(Clone, Debug)]
pub struct TaskIdentifier {
    pub task_id: String,
}

/// The stored fields of a task that a caller may write: its title, its
/// completion state, and an optional deadline as a millisecond Unix
/// timestamp.
#[derive(Clone, Debug)]
pub struct TaskData {
    pub title: String,
    pub completed: bool,
    pub deadline: Option<i64>,
}

/// A partial update of a task: every field optional, an absent field
/// leaving the stored value as it is.
#[derive(Clone, Debug)]
pub struct TaskUpdate {
    pub title: Option<String>,
    pub completed: Option<bool>,
    pub deadline: Option<i64>,
}

/// Merges a partial update into the stored fields of a task: each present
/// field of the update replaces the stored one, each absent field keeps it.
pub fn apply_update(current: &TaskData, update: &TaskUpdate) -> (r: TaskData)
    ensures
        r.title@ == (match update.title {
            Option::Some(t) => t@,
            Option::None => current.title@,
        }),
        r.completed == (match update.completed {
            Option::Some(c) => c,
            Option::None => current.completed,
        }),
        r.deadline == (match update.deadline {
            Option::Some(d) => Option::Some(d),
            Option::None => current.deadline,
        }),
{
    let title = match &update.title {
        Option::Some(t) => t.clone(),
        Option::None => current.title.clone(),
    };
    let completed = match update.completed {
        Option::Some(c) => c,
        Option::None => current.completed,
    };
    let deadline = match update.deadline {
        Option::Some(d) => Option::Some(d),
        Option::None => current.deadline,
    };
    TaskData { title, completed, deadline }
}

} // verus!
