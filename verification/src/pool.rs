//! A model of the bounded connection pool the accessor leases from.

use vstd::prelude::*;
use crate::error::Error;
use crate::store::{Store, StoreView};

verus! {

/// How many connections the pool is built with.
pub const POOL_CAPACITY: usize = 10;

/// The connection pool: a bounded capacity, the number of connections now
/// available for lease, and the storage engine state its connections reach.
/// Leasing takes one connection; releasing returns it.
pub struct Pool {
    pub capacity: usize,
    pub available: usize,
    pub store: Store,
}

/// The mathematical value of a [`Pool`].
#[verifier::ext_equal]
pub struct PoolView {
    pub capacity: int,
    pub available: int,
    pub store: StoreView,
}

impl View for Pool {
    type V = PoolView;

    open spec fn view(&self) -> PoolView {
        PoolView {
            capacity: self.capacity as int,
            available: self.available as int,
            store: self.store@,
        }
    }
}

impl PoolView {
    /// Well-formedness: no more connections are available than exist, and
    /// the store behind them is well-formed.
    pub open spec fn wf(self) -> bool {
        &&& 0 <= self.available <= self.capacity
        &&& self.store.wf()
    }
}

impl Pool {
    /// Lease a connection: `true` with one fewer available, or `false`,
    /// with the pool unchanged, when none is available within the pool's
    /// policy.
    pub fn acquire(&mut self) -> (ok: bool)
        ensures
            ok == (old(self)@.available > 0),
            final(self)@.capacity == old(self)@.capacity,
            final(self)@.store == old(self)@.store,
            final(self)@.available == if ok {
                old(self)@.available - 1
            } else {
                old(self)@.available
            },
    {
        if self.available > 0 {
            self.available = self.available - 1;
            true
        } else {
            false
        }
    }

    /// Return a leased connection to the pool.
    pub fn release(&mut self)
        requires
            old(self)@.available < old(self)@.capacity,
        ensures
            final(self)@.capacity == old(self)@.capacity,
            final(self)@.store == old(self)@.store,
            final(self)@.available == old(self)@.available + 1,
    {
        self.available = self.available + 1;
    }
}

/// Build the pool the accessor will run against: full capacity, an empty
/// store whose schema batch has not run yet.
pub fn create_pool() -> (r: Result<Pool, Error>)
    ensures
        r matches Ok(p) && p@.wf() && p@.capacity == POOL_CAPACITY as int && p@.available
            == POOL_CAPACITY as int && p@.store.ready == false && p@.store.next_id == 1
            && p@.store.todos == Seq::<crate::todo::TodoView>::empty(),
{
    Ok(Pool { capacity: POOL_CAPACITY, available: POOL_CAPACITY, store: Store::empty() })
}

} // verus!
