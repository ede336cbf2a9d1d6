//! The mathematical model of a store and of each operation on it.
//!
//! A store is a map from paths to byte sequences. Every operation of the
//! capability interface is pinned to one of the functions below, so that two
//! accessors with equal models are observably interchangeable for every
//! operation they both forward.

use vstd::prelude::*;

use crate::error::ErrorKind;
use crate::ops::{BatchOperation, OpRead, RpStat};
use crate::paths::{is_child, is_descendant};

verus! {

/// The observable state of a store: path to content.
pub type StoreModel = Map<Seq<char>, Seq<u8>>;

/// What `stat` returns on a given store: the entry's metadata, or
/// `NotFound` exactly when the path is absent.
pub open spec fn stat_model(store: StoreModel, path: Seq<char>) -> Result<RpStat, ErrorKind> {
    if store.contains_key(path) {
        Ok(RpStat { content_length: store[path].len() as u64 })
    } else {
        Err(ErrorKind::NotFound)
    }
}

/// The bytes a `read` at `path` with `args` yields: the requested range of
/// the content; `NotFound` when the path is absent, `InvalidInput` when the
/// offset lies past the end.
pub open spec fn read_model(store: StoreModel, path: Seq<char>, args: OpRead) -> Result<
    Seq<u8>,
    ErrorKind,
> {
    if !store.contains_key(path) {
        Err(ErrorKind::NotFound)
    } else if args.offset > store[path].len() {
        Err(ErrorKind::InvalidInput)
    } else {
        let content = store[path];
        let end = match args.size {
            Some(n) => if args.offset + n <= content.len() {
                args.offset + n
            } else {
                content.len() as int
            },
            None => content.len() as int,
        };
        Ok(content.subrange(args.offset as int, end))
    }
}

/// The store after `create(path)`: the path now holds an empty entry.
pub open spec fn create_model(store: StoreModel, path: Seq<char>) -> StoreModel {
    store.insert(path, Seq::empty())
}

/// The store after the sink opened by `write(path)` was closed with
/// `content` buffered.
pub open spec fn write_model(store: StoreModel, path: Seq<char>, content: Seq<u8>) -> StoreModel {
    store.insert(path, content)
}

/// The store after `delete(path)`: the path is gone; deleting an absent
/// path is an idempotent no-op.
pub open spec fn delete_model(store: StoreModel, path: Seq<char>) -> StoreModel {
    store.remove(path)
}

/// The entries a `list(path)` yields: the direct children of `path`.
pub open spec fn list_model(store: StoreModel, path: Seq<char>) -> Set<Seq<char>> {
    store.dom().filter(|k: Seq<char>| is_child(path, k))
}

/// The entries a `scan(path)` yields: everything strictly below `path`.
pub open spec fn scan_model(store: StoreModel, path: Seq<char>) -> Set<Seq<char>> {
    store.dom().filter(|k: Seq<char>| is_descendant(path, k))
}

/// The path a batch sub-operation addresses.
pub open spec fn batch_op_path(op: BatchOperation) -> Seq<char> {
    match op {
        BatchOperation::Create(p) => p@,
        BatchOperation::Delete(p) => p@,
    }
}

/// The store after one batch sub-operation.
pub open spec fn batch_step_model(store: StoreModel, op: BatchOperation) -> StoreModel {
    match op {
        BatchOperation::Create(p) => create_model(store, p@),
        BatchOperation::Delete(p) => delete_model(store, p@),
    }
}

/// The store after a whole batch, sub-operations applied first to last.
pub open spec fn batch_model(store: StoreModel, ops: Seq<BatchOperation>) -> StoreModel
    decreases ops.len(),
{
    if ops.len() == 0 {
        store
    } else {
        batch_step_model(batch_model(store, ops.drop_last()), ops.last())
    }
}

/// Applying a batch one sub-operation at a time agrees with applying its
/// first `i + 1` sub-operations at once.
pub proof fn lemma_batch_model_unfold(store: StoreModel, ops: Seq<BatchOperation>, i: int)
    requires
        0 <= i < ops.len(),
    ensures
        batch_model(store, ops.take(i + 1)) == batch_step_model(
            batch_model(store, ops.take(i)),
            ops[i],
        ),
{
    assert(ops.take(i + 1).drop_last() =~= ops.take(i));
    assert(ops.take(i + 1).last() == ops[i]);
}

} // verus!
