use vstd::prelude::*;
use crate::task::Task;
use crate::todo::Todo;
use crate::timestamp::Timestamp;
use crate::types::Id;

verus! {

#[derive(Debug, PartialEq, Eq)]
pub enum RepositoryError {
    /// The object looked for is not in the store.
    NotFound,
    /// The backing store failed; the message says how.
    InternalError(String),
}

pub type RepositoryResult<T> = Result<T, RepositoryError>;

/// Storage of tasks, keyed by their identifiers.
pub trait TaskRepository {
    /// The stored task with identifier `id`, if any.
    fn fetch_by_id(&self, id: &Id) -> (r: Option<Task>)
        ensures
            r matches Some(t) ==> t.spec_id() == id@,
    ;

    /// Stores `task`.
    fn create(&mut self, task: &Task) -> RepositoryResult<()>;

    /// Replaces the stored task that has the identifier of `task` by `task`.
    fn update(&mut self, task: &Task) -> (r: RepositoryResult<Task>)
        ensures
            r matches Ok(t) ==> t == *task,
    ;

    /// Removes the stored task that has the identifier of `task`.
    fn remove(&mut self, task: Task) -> RepositoryResult<()>;
}

/// Storage of todos over timestamps `T`, keyed by their identifiers.
pub trait TodoRepository<T: Timestamp> {
    /// The stored todo with identifier `id`, if any.
    fn fetch_by_id(&self, id: &Id) -> (r: Option<Todo<T>>)
        ensures
            r matches Some(t) ==> t.spec_id() == id@,
    ;

    /// The stored todos of the task with identifier `task_id`.
    fn fetch_by_task(&self, task_id: &Id) -> (r: RepositoryResult<Vec<Todo<T>>>)
        ensures
            r matches Ok(v) ==> forall|i: int| 0 <= i < v@.len() ==> (#[trigger] v@[i]).spec_task().spec_id() == task_id@,
    ;

    /// Stores `todo`.
    fn create(&mut self, todo: &Todo<T>) -> RepositoryResult<()>;

    /// Replaces the stored todo that has the identifier of `todo` by a copy of it.
    fn update(&mut self, todo: &Todo<T>) -> (r: RepositoryResult<Todo<T>>)
        ensures
            r matches Ok(t) ==> t.spec_id() == todo.spec_id(),
    ;

    /// Removes the stored todo that has the identifier of `todo`.
    fn remove(&mut self, todo: Todo<T>) -> RepositoryResult<()>;
}

} // verus!
