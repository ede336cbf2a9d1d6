//! The interception mechanism: layers, layered adapters, and the bridge
//! that makes every adapter a full accessor.
//!
//! A [`Layer`] is a factory: it takes an inner accessor and builds a new
//! accessor wrapping it. The adapter type it builds implements
//! [`LayeredAccessor`], which supplies default forwarding for every
//! operation that is safe to simply pass through. The operations whose
//! result carries a resource handle — `read`, `write` (with `close_write`),
//! `list` and `scan` — have **no** default: the adapter's declared handle
//! type must match what it actually returns, so the layer author must decide
//! for each of them whether to wrap the inner handle. Forgetting one is a
//! missing trait item, caught at composition time, never a silent stub.
//!
//! The bridge at the bottom of this module is the blanket rule: anything
//! implementing `LayeredAccessor` is an `Accessor`, by routing every call to
//! the adapter method, which either runs the override or falls through to
//! the inner accessor. Composition is purely structural nesting, to
//! arbitrary depth.

use vstd::prelude::*;

use crate::accessor::Accessor;
use crate::error::ErrorKind;
use crate::handles::{Page, Read, Write};
use crate::info::AccessorInfo;
use crate::model::{
    batch_model, batch_op_path, create_model, delete_model, list_model, read_model, scan_model,
    stat_model, write_model, StoreModel,
};
use crate::ops::{
    OpBatch, OpCreate, OpDelete, OpList, OpPresign, OpRead, OpScan, OpStat, OpWrite, RpBatch,
    RpCreate, RpDelete, RpList, RpPresign, RpRead, RpScan, RpStat, RpWrite,
};

verus! {

/// A factory that wraps an accessor to produce a new accessor with added
/// behaviour.
///
/// A layer is a pure transformation: it performs no storage work itself, it
/// only builds the wrapping value. Whatever state the adapter adds, the
/// observable store and metadata of the result are those of the inner
/// accessor.
pub trait Layer<A: Accessor> {
    /// The adapter this layer wraps an accessor into.
    type LayeredAccessor: Accessor;

    /// Intercept the operations on the underlying storage.
    fn layer(&self, inner: A) -> (r: Self::LayeredAccessor)
        ensures
            r.store() == inner.store(),
            r.info_spec() == inner.info_spec(),
    ;
}

/// A layered adapter: holds an inner accessor and forwards every operation
/// it does not override.
///
/// Only `inner` (with its ghost counterpart `inner_spec`), `inner_mut`, and
/// the resource-returning operations must be written by the adapter author;
/// everything else defaults to exact forwarding. The defaults neither
/// recover nor translate: the inner accessor's result, error included, is
/// handed through unchanged.
pub trait LayeredAccessor: Sized {
    /// The wrapped inner accessor's type.
    type Inner: Accessor;

    /// The readable-stream handle this adapter returns.
    type Reader: Read;

    /// The writable-sink handle this adapter returns.
    type Writer: Write;

    /// The pagination-cursor handle this adapter returns.
    type Pager: Page;

    /// The wrapped inner accessor, as a ghost value.
    spec fn inner_spec(&self) -> Self::Inner;

    /// The wrapped inner accessor.
    fn inner(&self) -> (r: &Self::Inner)
        ensures
            *r == self.inner_spec(),
    ;

    /// The wrapped inner accessor, for the mutating operations.
    fn inner_mut(&mut self) -> (r: &mut Self::Inner)
        ensures
            *r == old(self).inner_spec(),
            final(self).inner_spec() == *final(r),
    ;

    /// Forwards to the inner accessor's `info`.
    fn metadata(&self) -> (r: AccessorInfo)
        ensures
            r == self.inner_spec().info_spec(),
    {
        self.inner().info()
    }

    /// Forwards to the inner accessor's `create`.
    fn create(&mut self, path: &str, args: OpCreate) -> (r: Result<RpCreate, ErrorKind>)
        ensures
            r is Ok,
            final(self).inner_spec().store() == create_model(
                old(self).inner_spec().store(),
                path@,
            ),
            final(self).inner_spec().info_spec() == old(self).inner_spec().info_spec(),
    {
        let inner = self.inner_mut();
        Accessor::create(inner, path, args)
    }

    /// Open a readable stream; always written by the adapter author, so
    /// that the declared `Reader` type is a decision, not an accident.
    fn read(&self, path: &str, args: OpRead) -> (r: Result<(RpRead, Self::Reader), ErrorKind>)
        ensures
            r is Ok <==> read_model(self.inner_spec().store(), path@, args) is Ok,
            r matches Ok((rp, reader)) ==> reader.remaining() == read_model(
                self.inner_spec().store(),
                path@,
                args,
            )->Ok_0 && rp.size as nat == reader.remaining().len(),
            r matches Err(e) ==> read_model(self.inner_spec().store(), path@, args) == Err::<
                Seq<u8>,
                ErrorKind,
            >(e),
    ;

    /// Open a writable sink; always written by the adapter author.
    fn write(&self, path: &str, args: OpWrite) -> (r: Result<(RpWrite, Self::Writer), ErrorKind>)
        ensures
            r matches Ok((rp, w)) && w.target() == path@ && w.buffered() == Seq::<u8>::empty()
                && rp.written == 0,
    ;

    /// Commit a sink opened by this adapter's `write`; always written by
    /// the adapter author.
    fn close_write(&mut self, w: Self::Writer) -> (r: Result<RpWrite, ErrorKind>)
        ensures
            r matches Ok(rp) && rp.written as nat == w.buffered().len(),
            final(self).inner_spec().store() == write_model(
                old(self).inner_spec().store(),
                w.target(),
                w.buffered(),
            ),
            final(self).inner_spec().info_spec() == old(self).inner_spec().info_spec(),
    ;

    /// Forwards to the inner accessor's `stat`.
    fn stat(&self, path: &str, args: OpStat) -> (r: Result<RpStat, ErrorKind>)
        ensures
            r == stat_model(self.inner_spec().store(), path@),
    {
        self.inner().stat(path, args)
    }

    /// Forwards to the inner accessor's `delete`.
    fn delete(&mut self, path: &str, args: OpDelete) -> (r: Result<RpDelete, ErrorKind>)
        ensures
            r is Ok,
            final(self).inner_spec().store() == delete_model(
                old(self).inner_spec().store(),
                path@,
            ),
            final(self).inner_spec().info_spec() == old(self).inner_spec().info_spec(),
    {
        let inner = self.inner_mut();
        Accessor::delete(inner, path, args)
    }

    /// Open a cursor over direct children; always written by the adapter
    /// author.
    fn list(&self, path: &str, args: OpList) -> (r: Result<(RpList, Self::Pager), ErrorKind>)
        ensures
            r is Ok,
            r matches Ok((rp, pager)) ==> pager.items().to_set() == list_model(
                self.inner_spec().store(),
                path@,
            ) && pager.items().no_duplicates(),
    ;

    /// Open a cursor over the recursive traversal; always written by the
    /// adapter author.
    fn scan(&self, path: &str, args: OpScan) -> (r: Result<(RpScan, Self::Pager), ErrorKind>)
        ensures
            r is Ok,
            r matches Ok((rp, pager)) ==> pager.items().to_set() == scan_model(
                self.inner_spec().store(),
                path@,
            ) && pager.items().no_duplicates(),
    ;

    /// Forwards to the inner accessor's `batch`.
    fn batch(&mut self, args: OpBatch) -> (r: Result<RpBatch, ErrorKind>)
        ensures
            r matches Ok(rp) && rp.results@.len() == args.ops@.len() && (forall|i: int|
                0 <= i < args.ops@.len() ==> (#[trigger] rp.results@[i])@ == (
                batch_op_path(args.ops@[i]),
                None::<ErrorKind>,
                )),
            final(self).inner_spec().store() == batch_model(
                old(self).inner_spec().store(),
                args.ops@,
            ),
            final(self).inner_spec().info_spec() == old(self).inner_spec().info_spec(),
    {
        let inner = self.inner_mut();
        Accessor::batch(inner, args)
    }

    /// Forwards to the inner accessor's `presign`.
    fn presign(&self, path: &str, args: OpPresign) -> (r: Result<RpPresign, ErrorKind>)
        ensures
            r is Ok <==> self.inner_spec().info_spec().can_presign,
            r matches Ok(rp) ==> rp.path@ == path@ && rp.expires_secs == args.expires_secs,
            r matches Err(e) ==> e == ErrorKind::Unsupported,
    {
        self.inner().presign(path, args)
    }
}

/// The bridge: every layered adapter is an accessor.
///
/// Each capability-interface call routes statically to the corresponding
/// adapter method, which either runs the adapter's override or falls
/// through to the inner accessor. The adapter's observable store and
/// metadata are, by construction, the inner accessor's.
impl<L: LayeredAccessor> Accessor for L {
    type Reader = L::Reader;

    type Writer = L::Writer;

    type Pager = L::Pager;

    open spec fn store(&self) -> StoreModel {
        self.inner_spec().store()
    }

    open spec fn info_spec(&self) -> AccessorInfo {
        self.inner_spec().info_spec()
    }

    fn info(&self) -> (r: AccessorInfo) {
        self.metadata()
    }

    fn create(&mut self, path: &str, args: OpCreate) -> (r: Result<RpCreate, ErrorKind>) {
        LayeredAccessor::create(self, path, args)
    }

    fn read(&self, path: &str, args: OpRead) -> (r: Result<(RpRead, Self::Reader), ErrorKind>) {
        LayeredAccessor::read(self, path, args)
    }

    fn write(&self, path: &str, args: OpWrite) -> (r: Result<(RpWrite, Self::Writer), ErrorKind>) {
        LayeredAccessor::write(self, path, args)
    }

    fn close_write(&mut self, w: Self::Writer) -> (r: Result<RpWrite, ErrorKind>) {
        LayeredAccessor::close_write(self, w)
    }

    fn stat(&self, path: &str, args: OpStat) -> (r: Result<RpStat, ErrorKind>) {
        LayeredAccessor::stat(self, path, args)
    }

    fn delete(&mut self, path: &str, args: OpDelete) -> (r: Result<RpDelete, ErrorKind>) {
        LayeredAccessor::delete(self, path, args)
    }

    fn list(&self, path: &str, args: OpList) -> (r: Result<(RpList, Self::Pager), ErrorKind>) {
        LayeredAccessor::list(self, path, args)
    }

    fn scan(&self, path: &str, args: OpScan) -> (r: Result<(RpScan, Self::Pager), ErrorKind>) {
        LayeredAccessor::scan(self, path, args)
    }

    fn batch(&mut self, args: OpBatch) -> (r: Result<RpBatch, ErrorKind>) {
        LayeredAccessor::batch(self, args)
    }

    fn presign(&self, path: &str, args: OpPresign) -> (r: Result<RpPresign, ErrorKind>) {
        LayeredAccessor::presign(self, path, args)
    }
}

} // verus!
