use vstd::prelude::*;

verus! {

/// A point in time that can be placed on a line: two timestamps compare as their
/// `point`s do.
pub trait Timestamp: Sized {
    /// Position of the timestamp on the time line.
    spec fn point(&self) -> int;

    /// Whether `self` comes strictly before `other`.
    fn is_before(&self, other: &Self) -> (r: bool)
        ensures
            r == (self.point() < other.point()),
    ;

    /// Whether `self` and `other` denote the same instant.
    fn is_same_as(&self, other: &Self) -> (r: bool)
        ensures
            r == (self.point() == other.point()),
    ;
}

} // verus!
