//! Write sets: what one transaction does to the store, as a list of writes and
//! deletions in the order in which they take effect.

use crate::access_path::{AccessPath, AccessPathView};
use vstd::prelude::*;

verus! {

/// The content of a store: the blob under each key that has one.
pub type StateMap = Map<AccessPathView, Seq<u8>>;

/// What is done to one entry.
#[derive(Debug)]
pub enum WriteOp {
    /// The entry gets this blob.
    Value(Vec<u8>),
    /// The entry is removed.
    Deletion,
}

/// What a write operation is, as a value.
pub enum WriteOpView {
    Value(Seq<u8>),
    Deletion,
}

impl View for WriteOp {
    type V = WriteOpView;

    open spec fn view(&self) -> WriteOpView {
        match self {
            WriteOp::Value(blob) => WriteOpView::Value(blob@),
            WriteOp::Deletion => WriteOpView::Deletion,
        }
    }
}

impl Clone for WriteOp {
    fn clone(&self) -> (copy: Self)
        ensures
            copy@ == self@,
    {
        match self {
            WriteOp::Value(blob) => WriteOp::Value(blob.clone()),
            WriteOp::Deletion => WriteOp::Deletion,
        }
    }
}

/// One entry of a write set, as a value: the key and what is done to it.
pub type WriteView = (AccessPathView, WriteOpView);

/// The store after one operation.
pub open spec fn apply_op(state: StateMap, path: AccessPathView, op: WriteOpView) -> StateMap {
    match op {
        WriteOpView::Value(blob) => state.insert(path, blob),
        WriteOpView::Deletion => state.remove(path),
    }
}

/// The store after the operations `ops`, first to last.
pub open spec fn apply_ops(state: StateMap, ops: Seq<WriteView>) -> StateMap
    decreases ops.len(),
{
    if ops.len() == 0 {
        state
    } else {
        apply_op(apply_ops(state, ops.drop_last()), ops.last().0, ops.last().1)
    }
}

/// The operations of one transaction, in order.
#[derive(Debug)]
pub struct WriteSet {
    ops: Vec<(AccessPath, WriteOp)>,
}

impl View for WriteSet {
    type V = Seq<WriteView>;

    closed spec fn view(&self) -> Seq<WriteView> {
        self.ops@.map_values(|entry: (AccessPath, WriteOp)| (entry.0@, entry.1@))
    }
}

impl WriteSet {
    /// The write set that does nothing.
    pub fn new() -> (write_set: Self)
        ensures
            write_set@ == Seq::<WriteView>::empty(),
    {
        WriteSet { ops: Vec::new() }
    }

    /// Adds an operation after those that are there.
    pub fn push(&mut self, access_path: AccessPath, op: WriteOp)
        ensures
            final(self)@ == old(self)@.push((access_path@, op@)),
    {
        self.ops.push((access_path, op));
    }

    pub fn len(&self) -> (len: usize)
        ensures
            len == self@.len(),
    {
        self.ops.len()
    }

    pub fn is_empty(&self) -> (empty: bool)
        ensures
            empty == (self@.len() == 0),
    {
        self.ops.len() == 0
    }

    /// The operation at `index`.
    pub fn get(&self, index: usize) -> (entry: (&AccessPath, &WriteOp))
        requires
            index < self@.len(),
        ensures
            (entry.0@, entry.1@) == self@[index as int],
    {
        let entry = &self.ops[index];
        (&entry.0, &entry.1)
    }
}

/// One operation more: the store after `ops` and then the operation.
pub proof fn lemma_apply_ops_push(state: StateMap, ops: Seq<WriteView>, path: AccessPathView, op: WriteOpView)
    ensures
        apply_ops(state, ops.push((path, op))) == apply_op(apply_ops(state, ops), path, op),
{
    assert(ops.push((path, op)).drop_last() =~= ops);
}

/// The store after a list of one operation, and of two.
pub proof fn lemma_apply_ops_short(state: StateMap, first: WriteView, second: WriteView)
    ensures
        apply_ops(state, seq![first]) == apply_op(state, first.0, first.1),
        apply_ops(state, seq![first, second]) == apply_op(
            apply_op(state, first.0, first.1),
            second.0,
            second.1,
        ),
{
    let none = Seq::<WriteView>::empty();
    assert(seq![first, second] =~= seq![first].push(second));
    lemma_apply_ops_push(state, none, first.0, first.1);
    lemma_apply_ops_push(state, seq![first], second.0, second.1);
}

} // verus!
