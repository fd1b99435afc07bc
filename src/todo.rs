use vstd::prelude::*;
use crate::done_status::DoneStatusList;
use crate::task::Task;
use crate::time_range::TimeRange;
use crate::timestamp::Timestamp;
use crate::types::Id;

verus! {

/// A task scheduled over a range of time, with its completion checkpoints. The
/// checkpoints need not fall inside the range.
#[derive(Debug)]
pub struct Todo<T: Timestamp> {
    id: Id,
    task: Task,
    range: TimeRange<T>,
    status: DoneStatusList<T>,
}

impl<T: Timestamp> Todo<T> {
    pub closed spec fn spec_id(&self) -> Seq<char> {
        self.id@
    }

    pub closed spec fn spec_task(&self) -> Task {
        self.task
    }

    pub closed spec fn spec_range(&self) -> TimeRange<T> {
        self.range
    }

    pub closed spec fn spec_status(&self) -> DoneStatusList<T> {
        self.status
    }

    pub fn new(id: Id, task: Task, range: TimeRange<T>, status: DoneStatusList<T>) -> (r: Self)
        ensures
            r.spec_id() == id@,
            r.spec_task() == task,
            r.spec_range() == range,
            r.spec_status() == status,
    {
        Todo { id, task, range, status }
    }

    pub fn id(&self) -> (r: &Id)
        ensures
            r@ == self.spec_id(),
    {
        &self.id
    }

    pub fn task(&self) -> (r: &Task)
        ensures
            *r == self.spec_task(),
    {
        &self.task
    }

    pub fn range(&self) -> (r: &TimeRange<T>)
        ensures
            *r == self.spec_range(),
    {
        &self.range
    }

    /// The range, for changes in place; the rest of the todo stays.
    pub fn range_mut(&mut self) -> (r: &mut TimeRange<T>)
        ensures
            *r == old(self).spec_range(),
            final(self).spec_range() == *final(r),
            final(self).spec_id() == old(self).spec_id(),
            final(self).spec_task() == old(self).spec_task(),
            final(self).spec_status() == old(self).spec_status(),
    {
        &mut self.range
    }

    pub fn status(&self) -> (r: &DoneStatusList<T>)
        ensures
            *r == self.spec_status(),
    {
        &self.status
    }

    /// The checkpoints, for changes in place; the rest of the todo stays.
    pub fn status_mut(&mut self) -> (r: &mut DoneStatusList<T>)
        ensures
            *r == old(self).spec_status(),
            final(self).spec_status() == *final(r),
            final(self).spec_id() == old(self).spec_id(),
            final(self).spec_task() == old(self).spec_task(),
            final(self).spec_range() == old(self).spec_range(),
    {
        &mut self.status
    }
}

impl<T: Timestamp + Copy> Clone for Todo<T> {
    fn clone(&self) -> (r: Self)
        ensures
            r.spec_id() == self.spec_id(),
            r.spec_task() == self.spec_task(),
            r.spec_range() == self.spec_range(),
            r.spec_status()@ == self.spec_status()@,
    {
        Todo {
            id: self.id.clone(),
            task: self.task.clone(),
            range: self.range.clone(),
            status: self.status.clone(),
        }
    }
}

} // verus!
