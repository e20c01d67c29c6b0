//! The data accessor: a narrow capability interface over the pooled
//! storage, with row-to-entity mapping and typed error translation.
//!
//! Every operation leases a connection for its own duration and returns it
//! on every exit path, success or failure, so the pool's available count
//! after a call equals its count before it.

use vstd::prelude::*;
use vstd::pervasive::unreached;
use crate::error::Error;
use crate::pool::Pool;
use crate::store::{StoreView, spec_create, spec_created_todo};
use crate::todo::{ColValue, Row, Todo, row_encodes, row_is_todo_shape};

verus! {

/// The data accessor; it owns its handle to the connection pool and never
/// caches rows: the store is the source of truth.
pub struct DBAccess {
    pub db_pool: Pool,
}

impl DBAccess {
    pub fn new(db_pool: Pool) -> (r: Self)
        ensures
            r.db_pool == db_pool,
    {
        Self { db_pool }
    }

    /// The entity mapper: reads the three positional fields `(id, name,
    /// checked)` of a raw row and constructs the todo they encode.  The
    /// caller guarantees the row's shape; a row of another shape is a
    /// programmer error, ruled out by contract rather than handled.
    pub fn row_to_todo(&self, row: &Row) -> (t: Todo)
        requires
            row_is_todo_shape(*row),
        ensures
            row_encodes(*row, t@),
    {
        let id: i32 = match &row.cols[0] {
            ColValue::IntVal(v) => *v,
            _ => unreached(),
        };
        let name: String = match &row.cols[1] {
            ColValue::TextVal(v) => v.clone(),
            _ => unreached(),
        };
        let checked: bool = match &row.cols[2] {
            ColValue::BoolVal(v) => *v,
            _ => unreached(),
        };
        Todo { id, name, checked }
    }

    /// Apply the schema: takes the text of the schema resource, `None`
    /// when the resource could not be read, and executes it as a batch of
    /// statements over a leased connection.
    pub fn init_db(&mut self, schema: Option<&str>) -> (r: Result<(), Error>)
        requires
            old(self).db_pool@.wf(),
        ensures
            final(self).db_pool@.wf(),
            final(self).db_pool@.capacity == old(self).db_pool@.capacity,
            final(self).db_pool@.available == old(self).db_pool@.available,
            match schema {
                None => r == Err::<(), Error>(Error::SchemaLoadError) && final(self).db_pool@.store
                    == old(self).db_pool@.store,
                Some(_) => if old(self).db_pool@.available == 0 {
                    r == Err::<(), Error>(Error::PoolAcquireError) && final(self).db_pool@.store
                        == old(self).db_pool@.store
                } else {
                    r == Ok::<(), Error>(()) && final(self).db_pool@.store == (StoreView {
                        ready: true,
                        ..old(self).db_pool@.store
                    })
                },
            },
    {
        let script = match schema {
            Some(t) => t,
            None => {
                return Err(Error::SchemaLoadError);
            },
        };
        let ok = self.db_pool.acquire();
        if !ok {
            return Err(Error::PoolAcquireError);
        }
        self.db_pool.store.run_schema_batch(script);
        self.db_pool.release();
        proof {
            assert(self.db_pool@.store =~= (StoreView {
                ready: true,
                ..old(self).db_pool@.store
            }));
        }
        Ok(())
    }

    /// The ordered read: leases a connection, queries every stored todo in
    /// ascending id order, and maps each returned row through the entity
    /// mapper.  An empty result set is a valid, empty sequence.
    pub fn fetch_todos(&mut self) -> (r: Result<Vec<Todo>, Error>)
        requires
            old(self).db_pool@.wf(),
        ensures
            final(self).db_pool@ == old(self).db_pool@,
            match r {
                Ok(todos) => old(self).db_pool@.available > 0 && old(self).db_pool@.store.ready
                    && todos@.len() == old(self).db_pool@.store.todos.len() && (forall|j: int|
                    0 <= j < todos@.len() ==> (#[trigger] todos@[j])@
                        == old(self).db_pool@.store.todos[j]),
                Err(e) => if old(self).db_pool@.available == 0 {
                    e == Error::PoolAcquireError
                } else {
                    !old(self).db_pool@.store.ready && e == Error::QueryError
                },
            },
    {
        let ok = self.db_pool.acquire();
        if !ok {
            return Err(Error::PoolAcquireError);
        }
        if !self.db_pool.store.ready {
            self.db_pool.release();
            return Err(Error::QueryError);
        }
        let rows = self.db_pool.store.select_todo_rows();
        let mut todos: Vec<Todo> = Vec::new();
        let mut k: usize = 0;
        while k < rows.len()
            invariant
                k <= rows@.len(),
                todos@.len() == k as int,
                rows@.len() == self.db_pool@.store.todos.len(),
                forall|j: int|
                    0 <= j < rows@.len() ==> row_encodes(
                        #[trigger] rows@[j],
                        self.db_pool@.store.todos[j],
                    ),
                forall|j: int| 0 <= j < k ==> (#[trigger] todos@[j])@ == self.db_pool@.store.todos[j],
            decreases rows@.len() - k,
        {
            let t = self.row_to_todo(&rows[k]);
            todos.push(t);
            k = k + 1;
        }
        self.db_pool.release();
        Ok(todos)
    }

    /// The write: leases a connection, inserts a row with the given name
    /// as a bound parameter, and maps the returned row in the same round
    /// trip.  The name is never interpolated into the statement text; the
    /// statement is fixed and the name travels as a parameter value.
    pub fn create_todo(&mut self, name: String) -> (r: Result<Todo, Error>)
        requires
            old(self).db_pool@.wf(),
        ensures
            final(self).db_pool@.wf(),
            final(self).db_pool@.capacity == old(self).db_pool@.capacity,
            final(self).db_pool@.available == old(self).db_pool@.available,
            match r {
                Ok(t) => old(self).db_pool@.available > 0 && old(self).db_pool@.store.ready
                    && old(self).db_pool@.store.next_id < i32::MAX && t@ == spec_created_todo(
                    old(self).db_pool@.store,
                    name@,
                ) && final(self).db_pool@.store == spec_create(old(self).db_pool@.store, name@),
                Err(e) => final(self).db_pool@.store == old(self).db_pool@.store && if old(
                    self,
                ).db_pool@.available == 0 {
                    e == Error::PoolAcquireError
                } else {
                    e == Error::QueryError && (!old(self).db_pool@.store.ready || old(
                        self,
                    ).db_pool@.store.next_id == i32::MAX)
                },
            },
    {
        let ok = self.db_pool.acquire();
        if !ok {
            return Err(Error::PoolAcquireError);
        }
        if !self.db_pool.store.ready {
            self.db_pool.release();
            return Err(Error::QueryError);
        }
        if self.db_pool.store.next_id == i32::MAX {
            self.db_pool.release();
            return Err(Error::QueryError);
        }
        let row = self.db_pool.store.insert_todo_returning(name);
        let t = self.row_to_todo(&row);
        self.db_pool.release();
        proof {
            assert(self.db_pool@.store =~= spec_create(old(self).db_pool@.store, name@));
        }
        Ok(t)
    }
}

} // verus!
