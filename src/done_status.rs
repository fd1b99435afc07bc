use vstd::prelude::*;
use crate::time_range::TimeRange;
use crate::timestamp::Timestamp;
use crate::types::Id;

verus! {

/// A completion checkpoint: whether the work due at `applicable_time` was done.
#[derive(Debug)]
pub struct DoneStatus<T> {
    id: Id,
    applicable_time: T,
    done: bool,
}

impl<T> DoneStatus<T> {
    pub closed spec fn spec_id(&self) -> Seq<char> {
        self.id@
    }

    pub closed spec fn spec_applicable_time(&self) -> T {
        self.applicable_time
    }

    pub closed spec fn spec_done(&self) -> bool {
        self.done
    }

    pub fn new(id: Id, applicable_time: T, done: bool) -> (r: Self)
        ensures
            r.spec_id() == id@,
            r.spec_applicable_time() == applicable_time,
            r.spec_done() == done,
    {
        DoneStatus { id, applicable_time, done }
    }

    pub fn id(&self) -> (r: &Id)
        ensures
            r@ == self.spec_id(),
    {
        &self.id
    }

    pub fn applicable_time(&self) -> (r: &T)
        ensures
            *r == self.spec_applicable_time(),
    {
        &self.applicable_time
    }

    pub fn done(&self) -> (r: bool)
        ensures
            r == self.spec_done(),
    {
        self.done
    }

    pub fn undone(&self) -> (r: bool)
        ensures
            r == !self.spec_done(),
    {
        !self.done()
    }

    /// Marks the checkpoint as done; its identifier and time stay.
    pub fn mark_as_done(&mut self)
        ensures
            final(self).spec_done(),
            final(self).spec_id() == old(self).spec_id(),
            final(self).spec_applicable_time() == old(self).spec_applicable_time(),
    {
        self.done = true;
    }

    /// Marks the checkpoint as not done; its identifier and time stay.
    pub fn mark_as_undone(&mut self)
        ensures
            !final(self).spec_done(),
            final(self).spec_id() == old(self).spec_id(),
            final(self).spec_applicable_time() == old(self).spec_applicable_time(),
    {
        self.done = false;
    }
}

impl<T: Copy> Clone for DoneStatus<T> {
    fn clone(&self) -> (r: Self)
        ensures
            r == *self,
    {
        DoneStatus { id: self.id.clone(), applicable_time: self.applicable_time, done: self.done }
    }
}

/// The checkpoints of `s` that are done, in order.
pub open spec fn done_ones<T>(s: Seq<DoneStatus<T>>) -> Seq<DoneStatus<T>> {
    s.filter(|d: DoneStatus<T>| d.spec_done())
}

/// The checkpoints of `s` that are not done, in order.
pub open spec fn undone_ones<T>(s: Seq<DoneStatus<T>>) -> Seq<DoneStatus<T>> {
    s.filter(|d: DoneStatus<T>| !d.spec_done())
}

/// The checkpoints of `s` whose time `range` includes, in order.
pub open spec fn statuses_in<T: Timestamp>(s: Seq<DoneStatus<T>>, range: TimeRange<T>) -> Seq<DoneStatus<T>> {
    s.filter(|d: DoneStatus<T>| range.spec_includes(d.spec_applicable_time()))
}

/// Every checkpoint is either done or not: the two counts add up to the length
/// of the list.
pub proof fn lemma_dones_and_undones_partition<T>(s: Seq<DoneStatus<T>>)
    ensures
        done_ones(s).len() + undone_ones(s).len() == s.len(),
    decreases s.len(),
{
    reveal(Seq::filter);
    if s.len() > 0 {
        lemma_dones_and_undones_partition(s.drop_last());
    }
}

/// A list of completion checkpoints, kept in the order given.
#[derive(Debug)]
pub struct DoneStatusList<T> {
    statuses: Vec<DoneStatus<T>>,
}

impl<T> View for DoneStatusList<T> {
    type V = Seq<DoneStatus<T>>;

    closed spec fn view(&self) -> Seq<DoneStatus<T>> {
        self.statuses@
    }
}

impl<T> DoneStatusList<T> {
    pub fn new(statuses: Vec<DoneStatus<T>>) -> (r: Self)
        ensures
            r@ == statuses@,
    {
        DoneStatusList { statuses }
    }

    pub fn get_all(&self) -> (r: &[DoneStatus<T>])
        ensures
            r@ == self@,
    {
        self.statuses.as_slice()
    }

    /// Number of checkpoints that are done.
    pub fn dones(&self) -> (r: usize)
        ensures
            r == done_ones(self@).len(),
    {
        let mut count: usize = 0;
        let mut i: usize = 0;
        while i < self.statuses.len()
            invariant
                i <= self@.len(),
                count == done_ones(self@.take(i as int)).len(),
                count <= i,
            decreases self@.len() - i,
        {
            proof {
                reveal(Seq::filter);
                assert(self@.take(i + 1).drop_last() =~= self@.take(i as int));
            }
            if self.statuses[i].done() {
                count = count + 1;
            }
            i = i + 1;
        }
        proof { assert(self@.take(i as int) =~= self@); }
        count
    }

    /// Number of checkpoints that are not done.
    pub fn undones(&self) -> (r: usize)
        ensures
            r == undone_ones(self@).len(),
    {
        let mut count: usize = 0;
        let mut i: usize = 0;
        while i < self.statuses.len()
            invariant
                i <= self@.len(),
                count == undone_ones(self@.take(i as int)).len(),
                count <= i,
            decreases self@.len() - i,
        {
            proof {
                reveal(Seq::filter);
                assert(self@.take(i + 1).drop_last() =~= self@.take(i as int));
            }
            if self.statuses[i].undone() {
                count = count + 1;
            }
            i = i + 1;
        }
        proof { assert(self@.take(i as int) =~= self@); }
        count
    }

    /// Number of checkpoints, done or not.
    pub fn max_dones(&self) -> (r: usize)
        ensures
            r == self@.len(),
    {
        self.statuses.len()
    }

    /// Whether there is at least one checkpoint and every one is done.
    pub fn complete(&self) -> (r: bool)
        ensures
            r == (self@.len() > 0 && done_ones(self@).len() == self@.len()),
    {
        if self.statuses.is_empty() {
            return false;
        }
        self.dones() == self.max_dones()
    }
}

impl<T: Timestamp> DoneStatusList<T> {
    /// The checkpoints whose time `range` includes, in the order of the list.
    pub fn get_from_range(&self, range: &TimeRange<T>) -> (r: Vec<&DoneStatus<T>>)
        ensures
            r@.len() == statuses_in(self@, *range).len(),
            forall|k: int| 0 <= k < r@.len() ==> *#[trigger] r@[k] == statuses_in(self@, *range)[k],
    {
        let mut found: Vec<&DoneStatus<T>> = Vec::new();
        let mut i: usize = 0;
        while i < self.statuses.len()
            invariant
                i <= self@.len(),
                found@.len() == statuses_in(self@.take(i as int), *range).len(),
                forall|k: int| 0 <= k < found@.len()
                    ==> *#[trigger] found@[k] == statuses_in(self@.take(i as int), *range)[k],
            decreases self@.len() - i,
        {
            proof {
                reveal(Seq::filter);
                assert(self@.take(i + 1).drop_last() =~= self@.take(i as int));
            }
            let status = &self.statuses[i];
            if range.includes(status.applicable_time()) {
                found.push(status);
            }
            i = i + 1;
        }
        proof { assert(self@.take(i as int) =~= self@); }
        found
    }
}

impl<T: Copy> Clone for DoneStatusList<T> {
    fn clone(&self) -> (r: Self)
        ensures
            r@ == self@,
    {
        let mut statuses: Vec<DoneStatus<T>> = Vec::new();
        let mut i: usize = 0;
        while i < self.statuses.len()
            invariant
                i <= self@.len(),
                statuses@ =~= self@.take(i as int),
            decreases self@.len() - i,
        {
            statuses.push(self.statuses[i].clone());
            i = i + 1;
        }
        proof { assert(self@.take(i as int) =~= self@); }
        DoneStatusList { statuses }
    }
}

} // verus!
