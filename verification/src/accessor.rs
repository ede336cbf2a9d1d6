//! The uniform capability interface that every storage backend and every
//! layer exposes.
//!
//! Each operation's behaviour is pinned to the store model of
//! [`crate::model`]: an accessor is free in how it represents its state, but
//! what every operation returns, and how it changes the observable store, is
//! fixed here once for all implementations.

use vstd::prelude::*;

use crate::error::ErrorKind;
use crate::handles::{Page, Read, Write};
use crate::info::AccessorInfo;
use crate::model::{
    batch_model, batch_op_path, create_model, delete_model, list_model, read_model, scan_model,
    stat_model, write_model, StoreModel,
};
use crate::ops::{
    OpBatch, OpCreate, OpDelete, OpList, OpPresign, OpRead, OpScan, OpStat, OpWrite, RpBatch,
    RpCreate, RpDelete, RpList, RpPresign, RpRead, RpScan, RpStat, RpWrite,
};

verus! {

/// The uniform operation set of a storage backend or layer.
///
/// The three associated types declare which concrete resource handle the
/// accessor returns for each resource kind; they are fixed at composition
/// time, not per call.
pub trait Accessor: Sized {
    /// The readable-stream handle `read` returns.
    type Reader: Read;

    /// The writable-sink handle `write` returns.
    type Writer: Write;

    /// The pagination-cursor handle `list` and `scan` return.
    type Pager: Page;

    /// The observable store behind this accessor.
    spec fn store(&self) -> StoreModel;

    /// The metadata `info` returns.
    spec fn info_spec(&self) -> AccessorInfo;

    /// Descriptive metadata of this accessor; never fails.
    fn info(&self) -> (r: AccessorInfo)
        ensures
            r == self.info_spec(),
    ;

    /// Create an empty entry at `path`; idempotent.
    fn create(&mut self, path: &str, args: OpCreate) -> (r: Result<RpCreate, ErrorKind>)
        ensures
            r is Ok,
            final(self).store() == create_model(old(self).store(), path@),
            final(self).info_spec() == old(self).info_spec(),
    ;

    /// Open a readable stream over the requested range of the entry at
    /// `path`. Fails with `NotFound` exactly when the path is absent, with
    /// `InvalidInput` exactly when the offset lies past the end.
    fn read(&self, path: &str, args: OpRead) -> (r: Result<(RpRead, Self::Reader), ErrorKind>)
        ensures
            r is Ok <==> read_model(self.store(), path@, args) is Ok,
            r matches Ok((rp, reader)) ==> reader.remaining() == read_model(
                self.store(),
                path@,
                args,
            )->Ok_0 && rp.size as nat == reader.remaining().len(),
            r matches Err(e) ==> read_model(self.store(), path@, args) == Err::<
                Seq<u8>,
                ErrorKind,
            >(e),
    ;

    /// Open a writable sink at `path`. The store changes only when the sink
    /// is handed back through `close_write`.
    fn write(&self, path: &str, args: OpWrite) -> (r: Result<(RpWrite, Self::Writer), ErrorKind>)
        ensures
            r matches Ok((rp, w)) && w.target() == path@ && w.buffered() == Seq::<u8>::empty()
                && rp.written == 0,
    ;

    /// Commit a sink opened by `write` on this accessor: its target entry
    /// now holds exactly the buffered bytes.
    fn close_write(&mut self, w: Self::Writer) -> (r: Result<RpWrite, ErrorKind>)
        ensures
            r matches Ok(rp) && rp.written as nat == w.buffered().len(),
            final(self).store() == write_model(old(self).store(), w.target(), w.buffered()),
            final(self).info_spec() == old(self).info_spec(),
    ;

    /// Metadata of the entry at `path`. Fails with `NotFound` exactly when
    /// the path is absent.
    fn stat(&self, path: &str, args: OpStat) -> (r: Result<RpStat, ErrorKind>)
        ensures
            r == stat_model(self.store(), path@),
    ;

    /// Remove the entry at `path`; an idempotent no-op when it is absent.
    fn delete(&mut self, path: &str, args: OpDelete) -> (r: Result<RpDelete, ErrorKind>)
        ensures
            r is Ok,
            final(self).store() == delete_model(old(self).store(), path@),
            final(self).info_spec() == old(self).info_spec(),
    ;

    /// Open a cursor over the direct children of `path`: one level of the
    /// hierarchy, each entry exactly once.
    fn list(&self, path: &str, args: OpList) -> (r: Result<(RpList, Self::Pager), ErrorKind>)
        ensures
            r is Ok,
            r matches Ok((rp, pager)) ==> pager.items().to_set() == list_model(
                self.store(),
                path@,
            ) && pager.items().no_duplicates(),
    ;

    /// Open a cursor over everything strictly below `path`: the recursive
    /// traversal, each entry exactly once.
    fn scan(&self, path: &str, args: OpScan) -> (r: Result<(RpScan, Self::Pager), ErrorKind>)
        ensures
            r is Ok,
            r matches Ok((rp, pager)) ==> pager.items().to_set() == scan_model(
                self.store(),
                path@,
            ) && pager.items().no_duplicates(),
    ;

    /// Apply several mutating sub-operations, first to last, and report one
    /// outcome per sub-operation, in input order.
    fn batch(&mut self, args: OpBatch) -> (r: Result<RpBatch, ErrorKind>)
        ensures
            r matches Ok(rp) && rp.results@.len() == args.ops@.len() && (forall|i: int|
                0 <= i < args.ops@.len() ==> (#[trigger] rp.results@[i])@ == (
                batch_op_path(args.ops@[i]),
                None::<ErrorKind>,
                )),
            final(self).store() == batch_model(old(self).store(), args.ops@),
            final(self).info_spec() == old(self).info_spec(),
    ;

    /// Hand out a presigned reference to `path`, valid for the requested
    /// time. Fails with `Unsupported` exactly when the accessor lacks the
    /// capability.
    fn presign(&self, path: &str, args: OpPresign) -> (r: Result<RpPresign, ErrorKind>)
        ensures
            r is Ok <==> self.info_spec().can_presign,
            r matches Ok(rp) ==> rp.path@ == path@ && rp.expires_secs == args.expires_secs,
            r matches Err(e) ==> e == ErrorKind::Unsupported,
    ;
}

} // verus!
