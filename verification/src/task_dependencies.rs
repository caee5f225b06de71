//! The list of a render task's dependencies. Most tasks have at most two, which
//! are kept without an allocation of their own.

use vstd::prelude::*;

verus! {

/// The tasks that a task depends on, in the order in which they were added.
#[verifier::external_body]
pub struct TaskDependencies {
    ids: smallvec::SmallVec<[u32; 2]>,
}

/// The indices of the tasks in the list, in order.
pub uninterp spec fn dependency_ids(list: TaskDependencies) -> Seq<u32>;

impl TaskDependencies {
    /// `smallvec::SmallVec::new`: a list with nothing in it.
    #[verifier::external_body]
    pub(crate) fn new() -> (r: Self)
        ensures
            dependency_ids(r) == Seq::<u32>::empty(),
    {
        TaskDependencies { ids: smallvec::SmallVec::new() }
    }

    /// `smallvec::SmallVec::push`: the list gains the item at its end.
    #[verifier::external_body]
    pub(crate) fn push(&mut self, id: u32)
        ensures
            dependency_ids(*final(self)) == dependency_ids(*old(self)).push(id),
    {
        self.ids.push(id)
    }

    /// `get` of the slice that `smallvec::SmallVec` dereferences to: the item at
    /// the place, or nothing where the list is shorter.
    #[verifier::external_body]
    pub(crate) fn get(&self, place: usize) -> (r: Option<u32>)
        ensures
            r == (if place < dependency_ids(*self).len() {
                Some(dependency_ids(*self)[place as int])
            } else {
                None
            }),
    {
        self.ids.get(place).copied()
    }
}

} // verus!
