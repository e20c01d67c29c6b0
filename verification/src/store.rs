//! The storage engine state the accessor runs against, and the laws of its
//! two transitions: the ordered read and the insert-returning write.

use vstd::prelude::*;
use crate::todo::{ColValue, Row, Todo, TodoView, row_encodes};

verus! {

/// The storage engine state behind the pool's connections: whether the
/// schema batch has been executed (the todo table exists), the next id the
/// id sequence will assign, and the stored rows in insertion order.
pub struct Store {
    pub ready: bool,
    pub next_id: i32,
    pub todos: Vec<Todo>,
}

/// The mathematical value of a [`Store`].
#[verifier::ext_equal]
pub struct StoreView {
    pub ready: bool,
    pub next_id: int,
    pub todos: Seq<TodoView>,
}

impl View for Store {
    type V = StoreView;

    open spec fn view(&self) -> StoreView {
        StoreView {
            ready: self.ready,
            next_id: self.next_id as int,
            todos: self.todos@.map_values(|t: Todo| t@),
        }
    }
}

impl StoreView {
    /// Well-formedness: ids fit the id column, stay below the next id the
    /// sequence will assign, and strictly increase in insertion order.
    pub open spec fn wf(self) -> bool {
        &&& 1 <= self.next_id <= i32::MAX
        &&& forall|k: int|
            0 <= k < self.todos.len() ==> 1 <= (#[trigger] self.todos[k]).id < self.next_id
        &&& forall|k1: int, k2: int|
            0 <= k1 < k2 < self.todos.len() ==> self.todos[k1].id < self.todos[k2].id
    }
}

/// The todo a successful create on store `s` returns: the next id, the
/// requested name, and the storage-defined checked default, `false`.
pub open spec fn spec_created_todo(s: StoreView, name: Seq<char>) -> TodoView {
    TodoView { id: s.next_id, name: name, checked: false }
}

/// The store after a successful create: the new todo appended, the id
/// sequence advanced.
pub open spec fn spec_create(s: StoreView, name: Seq<char>) -> StoreView {
    StoreView {
        ready: s.ready,
        next_id: s.next_id + 1,
        todos: s.todos.push(spec_created_todo(s, name)),
    }
}

impl Store {
    /// A fresh, empty store whose schema batch has not run yet.
    pub fn empty() -> (r: Store)
        ensures
            r@.ready == false,
            r@.next_id == 1,
            r@.todos == Seq::<TodoView>::empty(),
            r@.wf(),
    {
        let r = Store { ready: false, next_id: 1, todos: Vec::new() };
        proof {
            assert(r@.todos =~= Seq::<TodoView>::empty());
        }
        r
    }

    /// Execute the schema batch over a leased connection: after it, the
    /// todo table exists.  The script's own idempotency is its author's
    /// concern, not modelled here.
    pub fn run_schema_batch(&mut self, _script: &str)
        ensures
            final(self)@.ready == true,
            final(self)@.next_id == old(self)@.next_id,
            final(self)@.todos == old(self)@.todos,
    {
        self.ready = true;
    }

    /// The ordered read query: every stored todo as a raw row, ascending
    /// by id (insertion order, by well-formedness).
    pub fn select_todo_rows(&self) -> (rows: Vec<Row>)
        requires
            self@.ready,
        ensures
            rows@.len() == self@.todos.len(),
            forall|k: int| 0 <= k < rows@.len() ==> row_encodes(#[trigger] rows@[k], self@.todos[k]),
    {
        let mut rows: Vec<Row> = Vec::new();
        let mut idx: usize = 0;
        while idx < self.todos.len()
            invariant
                idx <= self.todos.len(),
                rows@.len() == idx as int,
                forall|k: int|
                    0 <= k < idx ==> row_encodes(#[trigger] rows@[k], self@.todos[k]),
            decreases self.todos.len() - idx,
        {
            let t = &self.todos[idx];
            let mut cols: Vec<ColValue> = Vec::new();
            cols.push(ColValue::IntVal(t.id));
            cols.push(ColValue::TextVal(t.name.clone()));
            cols.push(ColValue::BoolVal(t.checked));
            rows.push(Row { cols });
            idx = idx + 1;
        }
        rows
    }

    /// The insert query with a returning clause: appends a new row holding
    /// the next id, the given name and the checked default `false`, and
    /// returns that row in the same round trip.
    pub fn insert_todo_returning(&mut self, name: String) -> (r: Row)
        requires
            old(self)@.wf(),
            old(self)@.ready,
            old(self)@.next_id < i32::MAX,
        ensures
            final(self)@.wf(),
            final(self)@.ready == true,
            final(self)@.next_id == old(self)@.next_id + 1,
            final(self)@.todos == old(self)@.todos.push(spec_created_todo(old(self)@, name@)),
            row_encodes(r, spec_created_todo(old(self)@, name@)),
    {
        let id = self.next_id;
        let mut cols: Vec<ColValue> = Vec::new();
        cols.push(ColValue::IntVal(id));
        cols.push(ColValue::TextVal(name.clone()));
        cols.push(ColValue::BoolVal(false));
        let row = Row { cols };
        self.todos.push(Todo { id, name, checked: false });
        self.next_id = id + 1;
        proof {
            assert(self@.todos =~= old(self)@.todos.push(spec_created_todo(old(self)@, name@)));
        }
        row
    }
}

/// The store after creating, in order, one todo per name of `names`, each
/// create succeeding.
pub open spec fn spec_create_all(s: StoreView, names: Seq<Seq<char>>) -> StoreView
    decreases names.len(),
{
    if names.len() == 0 {
        s
    } else {
        spec_create_all(spec_create(s, names[0]), names.drop_first())
    }
}

/// For any sequence of successful creates, a later listing returns the
/// previously stored todos unchanged, followed by the created ones in
/// insertion order, with ids assigned in that same order; by
/// well-formedness the whole listing is in strictly ascending id order.
pub proof fn lemma_creates_list_insertion_order(s: StoreView, names: Seq<Seq<char>>)
    requires
        s.wf(),
        s.next_id + names.len() <= i32::MAX,
    ensures
        ({
            let s2 = spec_create_all(s, names);
            &&& s2.wf()
            &&& s2.ready == s.ready
            &&& s2.next_id == s.next_id + names.len()
            &&& s2.todos.len() == s.todos.len() + names.len()
            &&& forall|k: int| 0 <= k < s.todos.len() ==> s2.todos[k] == s.todos[k]
            &&& forall|k: int|
                0 <= k < names.len() ==> s2.todos[s.todos.len() + k] == (TodoView {
                    id: s.next_id + k,
                    name: names[k],
                    checked: false,
                })
            &&& forall|k1: int, k2: int|
                0 <= k1 < k2 < s2.todos.len() ==> s2.todos[k1].id < s2.todos[k2].id
        }),
    decreases names.len(),
{
    if names.len() > 0 {
        let t0 = spec_created_todo(s, names[0]);
        let s1 = spec_create(s, names[0]);
        assert(s1.wf());
        lemma_creates_list_insertion_order(s1, names.drop_first());
        let s2 = spec_create_all(s, names);
        assert(s2 == spec_create_all(s1, names.drop_first()));
        assert(s1.todos[s.todos.len() as int] == t0);
        assert forall|k: int| 0 <= k < names.len() implies s2.todos[s.todos.len() + k]
            == (TodoView { id: s.next_id + k, name: names[k], checked: false }) by {
            if k == 0 {
                assert(s2.todos[s.todos.len() as int] == s1.todos[s.todos.len() as int]);
            } else {
                assert(s2.todos[s1.todos.len() + (k - 1)] == (TodoView {
                    id: s1.next_id + (k - 1),
                    name: names.drop_first()[k - 1],
                    checked: false,
                }));
                assert(names.drop_first()[k - 1] == names[k]);
            }
        }
    }
}

/// A created todo carries the requested name and the checked default
/// `false`, and the listing after the create contains it, unchanged, under
/// its id and under no other.
pub proof fn lemma_create_round_trip(s: StoreView, name: Seq<char>)
    requires
        s.wf(),
        s.next_id < i32::MAX,
    ensures
        ({
            let t = spec_created_todo(s, name);
            let s2 = spec_create(s, name);
            &&& t.name == name
            &&& t.checked == false
            &&& s2.wf()
            &&& s2.todos.contains(t)
            &&& forall|k: int| 0 <= k < s2.todos.len() && s2.todos[k].id == t.id ==> s2.todos[k] == t
        }),
{
    let t = spec_created_todo(s, name);
    let s2 = spec_create(s, name);
    assert(s2.todos[s.todos.len() as int] == t);
    assert(s2.todos.contains(t));
}

} // verus!
