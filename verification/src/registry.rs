use vstd::prelude::*;
use std::collections::HashMap;

verus! {

broadcast use vstd::std_specs::hash::group_hash_axioms;

/// Concurrent-table core: maps strictly positive `i64` handles to live
/// connection objects. Handles are allocated from a monotonically
/// increasing counter and are never reused, so a stale handle from a
/// torn-down session can never alias a new connection. The surrounding
/// runtime provides the reader-writer locking; this core carries the
/// table's sequential semantics.
pub struct ConnectionRegistry<C> {
    table: HashMap<i64, C>,
    next_handle: i64,
}

impl<C> ConnectionRegistry<C> {
    /// The table's contents as a map from handle to connection.
    pub closed spec fn view(&self) -> Map<i64, C> {
        self.table@
    }

    /// The next handle the registry will allocate.
    pub closed spec fn spec_next(&self) -> i64 {
        self.next_handle
    }

    /// Well-formedness: the counter starts at 1 and every live handle
    /// lies strictly below it, so every live handle is positive and the
    /// next allocation is fresh.
    pub open spec fn wf(&self) -> bool {
        &&& 1 <= self.spec_next()
        &&& forall|h: i64| self.view().contains_key(h) ==> 1 <= h < self.spec_next()
    }

    /// An empty registry whose first handle will be 1.
    pub fn new() -> (r: Self)
        ensures
            r.wf(),
            r.view() == Map::<i64, C>::empty(),
            r.spec_next() == 1,
    {
        ConnectionRegistry { table: HashMap::new(), next_handle: 1 }
    }

    /// The handle the next insert will return.
    pub fn next_handle(&self) -> (h: i64)
        ensures
            h == self.spec_next(),
    {
        self.next_handle
    }

    /// Number of live connections.
    pub fn len(&self) -> (n: usize)
        ensures
            n == self.view().len(),
    {
        self.table.len()
    }

    /// Allocates the next handle and stores the connection under it.
    /// The returned handle is strictly positive and was never live
    /// before, in this session or any earlier one.
    pub fn insert(&mut self, conn: C) -> (h: i64)
        requires
            old(self).wf(),
            old(self).spec_next() < i64::MAX,
        ensures
            final(self).wf(),
            h == old(self).spec_next(),
            1 <= h,
            !old(self).view().contains_key(h),
            forall|g: i64| old(self).view().contains_key(g) ==> g < h,
            final(self).view() == old(self).view().insert(h, conn),
            final(self).spec_next() == h + 1,
    {
        let h = self.next_handle;
        self.next_handle = self.next_handle + 1;
        self.table.insert(h, conn);
        proof {
            assert forall|g: i64| self.view().contains_key(g) implies 1 <= g < self.spec_next() by {
                if g != h {
                    assert(old(self).view().contains_key(g));
                }
            }
        }
        h
    }

    /// Read-side lookup: the connection currently stored under the
    /// handle, or absent.
    pub fn get(&self, handle: i64) -> (r: Option<&C>)
        ensures
            match r {
                Some(c) => self.view().contains_key(handle) && *c == self.view()[handle],
                None => !self.view().contains_key(handle),
            },
    {
        self.table.get(&handle)
    }

    /// Removes and returns the connection stored under the handle, or
    /// absent if it was never there or already removed. The handle
    /// counter is untouched, so removal never enables reuse.
    pub fn remove(&mut self, handle: i64) -> (r: Option<C>)
        requires
            old(self).wf(),
        ensures
            final(self).wf(),
            final(self).view() == old(self).view().remove(handle),
            final(self).spec_next() == old(self).spec_next(),
            match r {
                Some(c) => old(self).view().contains_key(handle) && c == old(self).view()[handle],
                None => !old(self).view().contains_key(handle),
            },
    {
        let r = self.table.remove(&handle);
        proof {
            assert forall|g: i64| self.view().contains_key(g) implies 1 <= g < self.spec_next() by {
                assert(old(self).view().contains_key(g));
            }
        }
        r
    }

    /// Removes every live connection at once, handing the whole table
    /// to the caller for out-of-lock shutdown. The handle counter is
    /// untouched, so handles stay unique across session generations.
    pub fn drain(&mut self) -> (drained: HashMap<i64, C>)
        requires
            old(self).wf(),
        ensures
            final(self).wf(),
            final(self).view() == Map::<i64, C>::empty(),
            final(self).spec_next() == old(self).spec_next(),
            drained@ == old(self).view(),
    {
        let mut drained: HashMap<i64, C> = HashMap::new();
        core::mem::swap(&mut drained, &mut self.table);
        drained
    }
}

/// Handle uniqueness law: handles are never reused within the process
/// lifetime. Every handle live in some earlier registry state lies
/// strictly below that state's counter; the counter never decreases
/// across insert, remove, drain or a whole stop/start cycle; and an
/// insert returns the later state's counter value. So the handle a
/// later insert returns differs from every handle that is — or ever
/// was — live before it.
pub proof fn lemma_handle_uniqueness<C>(
    earlier: ConnectionRegistry<C>,
    later: ConnectionRegistry<C>,
    h: i64,
)
    requires
        earlier.wf(),
        earlier.spec_next() <= later.spec_next(),
        h == later.spec_next(),
    ensures
        !earlier.view().contains_key(h),
        forall|g: i64| earlier.view().contains_key(g) ==> g != h,
{
}

/// Registry consistency: once a handle has been removed, it is gone —
/// a lookup of the same handle finds nothing, and a second removal
/// removes nothing. Stated over the table views that `remove` and
/// `get` promise.
pub proof fn lemma_registry_remove_consistent<C>(before: Map<i64, C>, after: Map<i64, C>, h: i64)
    requires
        after == before.remove(h),
    ensures
        !after.contains_key(h),
        after.remove(h) == after,
{
    assert(after.remove(h) =~= after);
}

} // verus!
