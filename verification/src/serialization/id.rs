//! Operation identity: the key under which a vertex is registered once.

use vstd::prelude::*;

verus! {

/// Identity of one operation builder. Two outputs refer to the same vertex
/// exactly when their operations carry the same identity; the identity never
/// reaches the encoded bytes.
#[derive(Debug)]
pub struct OperationId(u64);

impl View for OperationId {
    type V = u64;

    closed spec fn view(&self) -> u64 {
        self.0
    }
}

impl OperationId {
    /// The number behind the identity.
    pub fn value(&self) -> (n: u64)
        ensures
            n == self@,
    {
        self.0
    }
}

/// A counter that hands out identities in increasing order, each one once
/// until the counter wraps around.
#[derive(Debug)]
pub struct OperationIds {
    next: u64,
}

impl OperationIds {
    /// The number that the next identity will carry.
    pub closed spec fn upcoming(&self) -> u64 {
        self.next
    }

    /// A counter that starts at zero.
    pub fn new() -> (ids: OperationIds)
        ensures
            ids.upcoming() == 0,
    {
        OperationIds { next: 0 }
    }

    /// Hands out the next identity and advances the counter, wrapping to zero
    /// after the largest number.
    pub fn allocate(&mut self) -> (id: OperationId)
        ensures
            id@ == old(self).upcoming(),
            final(self).upcoming() == if old(self).upcoming() == u64::MAX {
                0
            } else {
                old(self).upcoming() + 1
            },
    {
        let current = self.next;
        self.next = if current == u64::MAX {
            0
        } else {
            current + 1
        };
        OperationId(current)
    }
}

} // verus!
