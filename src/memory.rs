use vstd::prelude::*;
use vstd::string::StringExecFns;
use crate::repository::{RepositoryError, RepositoryResult, TaskRepository, TodoRepository};
use crate::task::Task;
use crate::timestamp::Timestamp;
use crate::todo::Todo;
use crate::types::Id;

verus! {

/// Number of tasks that a fresh in-memory store holds.
pub const SAMPLE_TASKS: usize = 9;

/// The decimal digit for `d`, below ten.
pub open spec fn digit_char(d: nat) -> char {
    if d == 0 { '0' } else if d == 1 { '1' } else if d == 2 { '2' } else if d == 3 { '3' }
    else if d == 4 { '4' } else if d == 5 { '5' } else if d == 6 { '6' } else if d == 7 { '7' }
    else if d == 8 { '8' } else { '9' }
}

/// Identifier of sample task `i`: `task-` and the digit of `i`.
pub open spec fn sample_id(i: nat) -> Seq<char> {
    seq!['t', 'a', 's', 'k', '-', digit_char(i)]
}

/// Name of sample task `i`: `Task #` and the digit of `i`.
pub open spec fn sample_name(i: nat) -> Seq<char> {
    seq!['T', 'a', 's', 'k', ' ', '#', digit_char(i)]
}

fn decimal_digit(d: usize) -> (r: &'static str)
    requires
        d < 10,
    ensures
        r@ == seq![digit_char(d as nat)],
{
    proof {
        reveal_strlit("0"); reveal_strlit("1"); reveal_strlit("2"); reveal_strlit("3");
        reveal_strlit("4"); reveal_strlit("5"); reveal_strlit("6"); reveal_strlit("7");
        reveal_strlit("8"); reveal_strlit("9");
    }
    match d {
        0 => "0",
        1 => "1",
        2 => "2",
        3 => "3",
        4 => "4",
        5 => "5",
        6 => "6",
        7 => "7",
        8 => "8",
        _ => "9",
    }
}

/// Whether a task with identifier `id` is in `tasks`.
pub open spec fn holds_id(tasks: Seq<Task>, id: Seq<char>) -> bool {
    exists|i: int| 0 <= i < tasks.len() && (#[trigger] tasks[i]).spec_id() == id
}

/// Whether `i` is the first position of `tasks` with identifier `id`.
pub open spec fn first_with_id(tasks: Seq<Task>, id: Seq<char>, i: int) -> bool {
    &&& 0 <= i < tasks.len()
    &&& tasks[i].spec_id() == id
    &&& forall|j: int| 0 <= j < i ==> (#[trigger] tasks[j]).spec_id() != id
}

/// Tasks kept in memory, in the order they were stored.
pub struct MockTaskRepository {
    content: Vec<Task>,
}

impl View for MockTaskRepository {
    type V = Seq<Task>;

    closed spec fn view(&self) -> Seq<Task> {
        self.content@
    }
}

impl MockTaskRepository {
    /// A store with sample tasks `task-0` to `task-8`, named `Task #0` to `Task #8`.
    pub fn new() -> (r: Self)
        ensures
            r@.len() == SAMPLE_TASKS,
            forall|i: int| 0 <= i < SAMPLE_TASKS ==> (#[trigger] r@[i]).spec_id() == sample_id(i as nat)
                && r@[i].spec_name() == sample_name(i as nat),
    {
        let mut content: Vec<Task> = Vec::new();
        let mut i: usize = 0;
        while i < SAMPLE_TASKS
            invariant
                i <= SAMPLE_TASKS,
                content@.len() == i,
                forall|k: int| 0 <= k < i ==> (#[trigger] content@[k]).spec_id() == sample_id(k as nat)
                    && content@[k].spec_name() == sample_name(k as nat),
            decreases SAMPLE_TASKS - i,
        {
            let digit = decimal_digit(i);
            let mut id = String::from_str("task-");
            id.append(digit);
            let mut name = String::from_str("Task #");
            name.append(digit);
            proof {
                reveal_strlit("task-");
                reveal_strlit("Task #");
                assert(id@ =~= sample_id(i as nat));
                assert(name@ =~= sample_name(i as nat));
            }
            match Task::new(Id::new(id.as_str()), name.as_str()) {
                Ok(task) => content.push(task),
                Err(_) => {},
            }
            i = i + 1;
        }
        MockTaskRepository { content }
    }

    /// Position of the first stored task with identifier `id`.
    fn position_of(&self, id: &Id) -> (r: Option<usize>)
        ensures
            match r {
                Some(i) => first_with_id(self@, id@, i as int),
                None => !holds_id(self@, id@),
            },
    {
        let mut i: usize = 0;
        while i < self.content.len()
            invariant
                i <= self@.len(),
                forall|j: int| 0 <= j < i ==> (#[trigger] self@[j]).spec_id() != id@,
            decreases self@.len() - i,
        {
            if *self.content[i].id() == *id {
                return Some(i);
            }
            i = i + 1;
        }
        None
    }
}

impl TaskRepository for MockTaskRepository {
    /// A copy of the first stored task with identifier `id`.
    fn fetch_by_id(&self, id: &Id) -> (r: Option<Task>)
        ensures
            match r {
                Some(t) => exists|i: int| first_with_id(self@, id@, i) && t == self@[i],
                None => !holds_id(self@, id@),
            },
    {
        match self.position_of(id) {
            Some(i) => Some(self.content[i].clone()),
            None => None,
        }
    }

    /// Appends a copy of `task`; never fails.
    fn create(&mut self, task: &Task) -> (r: RepositoryResult<()>)
        ensures
            r is Ok,
            final(self)@ == old(self)@.push(*task),
    {
        self.content.push(task.clone());
        Ok(())
    }

    /// Takes out the first stored task with the identifier of `task` and appends
    /// a copy of `task`; `NotFound`, with the store unchanged, when there is none.
    fn update(&mut self, task: &Task) -> (r: RepositoryResult<Task>)
        ensures
            match r {
                Ok(t) => t == *task && exists|i: int| first_with_id(old(self)@, task.spec_id(), i)
                    && final(self)@ == old(self)@.remove(i).push(*task),
                Err(e) => e == RepositoryError::NotFound && !holds_id(old(self)@, task.spec_id())
                    && final(self)@ == old(self)@,
            },
    {
        match self.position_of(task.id()) {
            Some(i) => {
                self.content.remove(i);
                self.content.push(task.clone());
                Ok(task.clone())
            },
            None => Err(RepositoryError::NotFound),
        }
    }

    /// Takes out the first stored task with the identifier of `task`; `NotFound`,
    /// with the store unchanged, when there is none.
    fn remove(&mut self, task: Task) -> (r: RepositoryResult<()>)
        ensures
            match r {
                Ok(()) => exists|i: int| first_with_id(old(self)@, task.spec_id(), i)
                    && final(self)@ == old(self)@.remove(i),
                Err(e) => e == RepositoryError::NotFound && !holds_id(old(self)@, task.spec_id())
                    && final(self)@ == old(self)@,
            },
    {
        match self.position_of(task.id()) {
            Some(i) => {
                self.content.remove(i);
                Ok(())
            },
            None => Err(RepositoryError::NotFound),
        }
    }
}

/// Whether `a` is a copy of `b`: same identifier, task, range and checkpoints.
pub open spec fn copy_of<T: Timestamp>(a: Todo<T>, b: Todo<T>) -> bool {
    &&& a.spec_id() == b.spec_id()
    &&& a.spec_task() == b.spec_task()
    &&& a.spec_range() == b.spec_range()
    &&& a.spec_status()@ == b.spec_status()@
}

/// Whether a todo with identifier `id` is in `todos`.
pub open spec fn holds_todo_id<T: Timestamp>(todos: Seq<Todo<T>>, id: Seq<char>) -> bool {
    exists|i: int| 0 <= i < todos.len() && (#[trigger] todos[i]).spec_id() == id
}

/// Whether `i` is the first position of `todos` with identifier `id`.
pub open spec fn first_todo_with_id<T: Timestamp>(todos: Seq<Todo<T>>, id: Seq<char>, i: int) -> bool {
    &&& 0 <= i < todos.len()
    &&& todos[i].spec_id() == id
    &&& forall|j: int| 0 <= j < i ==> (#[trigger] todos[j]).spec_id() != id
}

/// The todos of `todos` that belong to the task with identifier `task_id`, in order.
pub open spec fn todos_of_task<T: Timestamp>(todos: Seq<Todo<T>>, task_id: Seq<char>) -> Seq<Todo<T>> {
    todos.filter(|t: Todo<T>| t.spec_task().spec_id() == task_id)
}

/// Todos kept in memory, in the order they were stored.
pub struct MockTodoRepository<T: Timestamp> {
    content: Vec<Todo<T>>,
}

impl<T: Timestamp> View for MockTodoRepository<T> {
    type V = Seq<Todo<T>>;

    closed spec fn view(&self) -> Seq<Todo<T>> {
        self.content@
    }
}

impl<T: Timestamp + Copy> MockTodoRepository<T> {
    /// A store holding `content`.
    pub fn new(content: Vec<Todo<T>>) -> (r: Self)
        ensures
            r@ == content@,
    {
        MockTodoRepository { content }
    }

    /// Position of the first stored todo with identifier `id`.
    fn position_of(&self, id: &Id) -> (r: Option<usize>)
        ensures
            match r {
                Some(i) => first_todo_with_id(self@, id@, i as int),
                None => !holds_todo_id(self@, id@),
            },
    {
        let mut i: usize = 0;
        while i < self.content.len()
            invariant
                i <= self@.len(),
                forall|j: int| 0 <= j < i ==> (#[trigger] self@[j]).spec_id() != id@,
            decreases self@.len() - i,
        {
            if *self.content[i].id() == *id {
                return Some(i);
            }
            i = i + 1;
        }
        None
    }
}

impl<T: Timestamp + Copy> TodoRepository<T> for MockTodoRepository<T> {
    /// A copy of the first stored todo with identifier `id`.
    fn fetch_by_id(&self, id: &Id) -> (r: Option<Todo<T>>)
        ensures
            match r {
                Some(t) => exists|i: int| first_todo_with_id(self@, id@, i) && copy_of(t, self@[i]),
                None => !holds_todo_id(self@, id@),
            },
    {
        match self.position_of(id) {
            Some(i) => Some(self.content[i].clone()),
            None => None,
        }
    }

    /// Copies of the stored todos of the task with identifier `task_id`, in
    /// order; never fails.
    fn fetch_by_task(&self, task_id: &Id) -> (r: RepositoryResult<Vec<Todo<T>>>)
        ensures
            match r {
                Ok(v) => v@.len() == todos_of_task(self@, task_id@).len()
                    && forall|k: int| 0 <= k < v@.len()
                        ==> copy_of(#[trigger] v@[k], todos_of_task(self@, task_id@)[k]),
                Err(_) => false,
            },
    {
        let mut found: Vec<Todo<T>> = Vec::new();
        let mut i: usize = 0;
        while i < self.content.len()
            invariant
                i <= self@.len(),
                found@.len() == todos_of_task(self@.take(i as int), task_id@).len(),
                forall|k: int| 0 <= k < found@.len()
                    ==> copy_of(#[trigger] found@[k], todos_of_task(self@.take(i as int), task_id@)[k]),
            decreases self@.len() - i,
        {
            proof {
                reveal(Seq::filter);
                assert(self@.take(i + 1).drop_last() =~= self@.take(i as int));
            }
            let todo = &self.content[i];
            if *todo.task().id() == *task_id {
                found.push(todo.clone());
            }
            i = i + 1;
        }
        proof { assert(self@.take(i as int) =~= self@); }
        Ok(found)
    }

    /// Appends a copy of `todo`; never fails.
    fn create(&mut self, todo: &Todo<T>) -> (r: RepositoryResult<()>)
        ensures
            r is Ok,
            final(self)@.len() == old(self)@.len() + 1,
            final(self)@.drop_last() == old(self)@,
            copy_of(final(self)@.last(), *todo),
    {
        self.content.push(todo.clone());
        proof { assert(self@.drop_last() =~= old(self)@); }
        Ok(())
    }

    /// Takes out the first stored todo with the identifier of `todo` and appends
    /// a copy of `todo`; `NotFound`, with the store unchanged, when there is none.
    fn update(&mut self, todo: &Todo<T>) -> (r: RepositoryResult<Todo<T>>)
        ensures
            match r {
                Ok(t) => copy_of(t, *todo) && exists|i: int| first_todo_with_id(old(self)@, todo.spec_id(), i)
                    && final(self)@.drop_last() == old(self)@.remove(i)
                    && final(self)@.len() == old(self)@.len()
                    && copy_of(final(self)@.last(), *todo),
                Err(e) => e == RepositoryError::NotFound && !holds_todo_id(old(self)@, todo.spec_id())
                    && final(self)@ == old(self)@,
            },
    {
        match self.position_of(todo.id()) {
            Some(i) => {
                self.content.remove(i);
                let ghost removed = self@;
                self.content.push(todo.clone());
                proof { assert(self@.drop_last() =~= removed); }
                Ok(todo.clone())
            },
            None => Err(RepositoryError::NotFound),
        }
    }

    /// Takes out the first stored todo with the identifier of `todo`; `NotFound`,
    /// with the store unchanged, when there is none.
    fn remove(&mut self, todo: Todo<T>) -> (r: RepositoryResult<()>)
        ensures
            match r {
                Ok(()) => exists|i: int| first_todo_with_id(old(self)@, todo.spec_id(), i)
                    && final(self)@ == old(self)@.remove(i),
                Err(e) => e == RepositoryError::NotFound && !holds_todo_id(old(self)@, todo.spec_id())
                    && final(self)@ == old(self)@,
            },
    {
        match self.position_of(todo.id()) {
            Some(i) => {
                self.content.remove(i);
                Ok(())
            },
            None => Err(RepositoryError::NotFound),
        }
    }
}

} // verus!
