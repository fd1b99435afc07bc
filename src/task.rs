use vstd::prelude::*;
use crate::types::Id;

verus! {

/// A named unit of work.
#[derive(Debug)]
pub struct Task {
    id: Id,
    name: String,
}

#[derive(Debug, Clone, Copy, PartialEq, Eq, Structural)]
pub enum TaskValidationError {
    EmptyName,
}

/// Outcome of checking a task name: any name but the empty one is accepted.
pub open spec fn name_check(name: Seq<char>) -> Result<(), TaskValidationError> {
    if name.len() == 0 {
        Err(TaskValidationError::EmptyName)
    } else {
        Ok(())
    }
}

impl Task {
    #[verifier::type_invariant]
    spec fn inv(&self) -> bool {
        self.name@.len() > 0
    }

    pub closed spec fn spec_id(&self) -> Seq<char> {
        self.id@
    }

    pub closed spec fn spec_name(&self) -> Seq<char> {
        self.name@
    }

    /// The task `id` named `name`; fails with `EmptyName` when `name` is empty.
    pub fn new(id: Id, name: &str) -> (r: Result<Self, TaskValidationError>)
        ensures
            match r {
                Ok(task) => name_check(name@) is Ok && task.spec_id() == id@
                    && task.spec_name() == name@,
                Err(e) => name_check(name@) == Err::<(), _>(e),
            },
    {
        match Task::validate_name(name) {
            Ok(()) => Ok(Task { id, name: name.to_owned() }),
            Err(e) => Err(e),
        }
    }

    pub fn id(&self) -> (r: &Id)
        ensures
            r@ == self.spec_id(),
    {
        &self.id
    }

    pub fn name(&self) -> (r: &str)
        ensures
            r@ == self.spec_name(),
            r@.len() > 0,
    {
        proof { use_type_invariant(self); }
        self.name.as_str()
    }

    /// Renames the task; an empty `name` is refused and the old name kept.
    pub fn set_name(&mut self, name: &str) -> (r: Result<(), TaskValidationError>)
        ensures
            r == name_check(name@),
            final(self).spec_id() == old(self).spec_id(),
            final(self).spec_name() == (if r is Ok { name@ } else { old(self).spec_name() }),
    {
        match Task::validate_name(name) {
            Ok(()) => {
                self.name = name.to_owned();
                Ok(())
            },
            Err(e) => Err(e),
        }
    }

    /// Checks that `name` may name a task.
    pub fn validate_name(name: &str) -> (r: Result<(), TaskValidationError>)
        ensures
            r == name_check(name@),
    {
        if name.is_empty() {
            return Err(TaskValidationError::EmptyName);
        }
        Ok(())
    }
}

impl Clone for Task {
    fn clone(&self) -> (r: Self)
        ensures
            r == *self,
    {
        proof { use_type_invariant(self); }
        Task { id: self.id.clone(), name: self.name.clone() }
    }
}

} // verus!
