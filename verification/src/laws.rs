//! The laws of the interception mechanism, stated and proved once for all
//! layers and backends.

use vstd::prelude::*;

use crate::accessor::Accessor;
use crate::info::AccessorInfo;
use crate::layer::LayeredAccessor;
use crate::model::{
    batch_model, create_model, delete_model, list_model, read_model, scan_model, stat_model,
    write_model,
};
use crate::ops::{BatchOperation, OpRead};

verus! {

/// Forwarding correctness: a layered adapter's observable store and
/// metadata are exactly its inner accessor's, so every operation the
/// adapter forwards — each being pinned by its contract to a model of that
/// store — returns on the layered accessor byte for byte what it returns
/// on the inner accessor, the same errors included, for identical
/// arguments and backend state.
pub proof fn lemma_forwarding_correctness<L: LayeredAccessor>(
    l: L,
    path: Seq<char>,
    args: OpRead,
    content: Seq<u8>,
    ops: Seq<BatchOperation>,
)
    ensures
        l.store() == l.inner_spec().store(),
        l.info_spec() == l.inner_spec().info_spec(),
        stat_model(l.store(), path) == stat_model(l.inner_spec().store(), path),
        read_model(l.store(), path, args) == read_model(l.inner_spec().store(), path, args),
        create_model(l.store(), path) == create_model(l.inner_spec().store(), path),
        delete_model(l.store(), path) == delete_model(l.inner_spec().store(), path),
        write_model(l.store(), path, content) == write_model(l.inner_spec().store(), path, content),
        list_model(l.store(), path) == list_model(l.inner_spec().store(), path),
        scan_model(l.store(), path) == scan_model(l.inner_spec().store(), path),
        batch_model(l.store(), ops) == batch_model(l.inner_spec().store(), ops),
{
}

/// Composition transparency: wrapping an accessor with one layer and then
/// another leaves the observable store and metadata those of the innermost
/// accessor, whatever the nesting. Since every forwarded operation is
/// pinned to that model, nesting order is observable only through the
/// operations the layers actually intercept.
pub proof fn lemma_composition_transparent<L1: LayeredAccessor, L2: LayeredAccessor<Inner = L1>>(
    outer: L2,
)
    ensures
        outer.store() == outer.inner_spec().inner_spec().store(),
        outer.info_spec() == outer.inner_spec().inner_spec().info_spec(),
{
}

/// Idempotence of `info`: two calls without an intervening mutating call
/// both return the accessor's metadata snapshot, so they return identical
/// values.
pub proof fn lemma_info_idempotent<A: Accessor>(a: A, first: AccessorInfo, second: AccessorInfo)
    requires
        first == a.info_spec(),
        second == a.info_spec(),
    ensures
        first == second,
{
}

} // verus!
