//! The todo entity and the raw result row it is mapped from.

use vstd::prelude::*;

verus! {

/// A todo record as the storage engine returns it.
#[derive(Debug)]
pub struct Todo {
    pub id: i32,
    pub name: String,
    pub checked: bool,
}

/// The mathematical value of a [`Todo`].
#[verifier::ext_equal]
pub struct TodoView {
    pub id: int,
    pub name: Seq<char>,
    pub checked: bool,
}

impl View for Todo {
    type V = TodoView;

    open spec fn view(&self) -> TodoView {
        TodoView { id: self.id as int, name: self.name@, checked: self.checked }
    }
}

/// One positional field of a raw result row.
pub enum ColValue {
    IntVal(i32),
    TextVal(String),
    BoolVal(bool),
}

/// A raw result row: positional fields in the order the query named them.
pub struct Row {
    pub cols: Vec<ColValue>,
}

/// The shape the entity mapper's contract requires: exactly three fields,
/// `(id, name, checked)`, with types `(integer, text, boolean)`.  The
/// accessor keeps its query text in sync with this shape; handing the
/// mapper a row of another shape is a programmer error.
pub open spec fn row_is_todo_shape(r: Row) -> bool {
    &&& r.cols@.len() == 3
    &&& r.cols@[0] is IntVal
    &&& r.cols@[1] is TextVal
    &&& r.cols@[2] is BoolVal
}

/// The row encodes exactly this todo value.
pub open spec fn row_encodes(r: Row, t: TodoView) -> bool {
    &&& row_is_todo_shape(r)
    &&& (r.cols@[0] matches ColValue::IntVal(id) && id as int == t.id)
    &&& (r.cols@[1] matches ColValue::TextVal(name) && name@ == t.name)
    &&& (r.cols@[2] matches ColValue::BoolVal(b) && b == t.checked)
}

} // verus!
