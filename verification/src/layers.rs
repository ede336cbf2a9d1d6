//! Two layers written against the layered-adapter contract: a pure
//! passthrough, and a counting layer that wraps the resource handles it
//! hands out.
//!
//! Both show the division of labour the mechanism asks for: nothing is
//! written for the forwarded operations, while the resource-returning
//! operations are spelled out — re-using the inner handle type, or
//! substituting an own wrapping handle.

use vstd::prelude::*;

use crate::accessor::Accessor;
use crate::error::ErrorKind;
use crate::handles::{Page, Read};
use crate::layer::{Layer, LayeredAccessor};
use crate::ops::{
    Entry, OpList, OpRead, OpScan, OpWrite, RpList, RpRead, RpScan, RpWrite,
};

verus! {

/// A layer that adds nothing: every operation forwards, and the handles
/// are the inner accessor's own.
pub struct PassthroughLayer;

/// The adapter [`PassthroughLayer`] builds.
pub struct PassthroughAccessor<A: Accessor> {
    inner: A,
}

impl<A: Accessor> LayeredAccessor for PassthroughAccessor<A> {
    type Inner = A;

    type Reader = A::Reader;

    type Writer = A::Writer;

    type Pager = A::Pager;

    closed spec fn inner_spec(&self) -> A {
        self.inner
    }

    fn inner(&self) -> (r: &A) {
        &self.inner
    }

    fn inner_mut(&mut self) -> (r: &mut A) {
        &mut self.inner
    }

    fn read(&self, path: &str, args: OpRead) -> (r: Result<(RpRead, A::Reader), ErrorKind>) {
        self.inner.read(path, args)
    }

    fn write(&self, path: &str, args: OpWrite) -> (r: Result<(RpWrite, A::Writer), ErrorKind>) {
        self.inner.write(path, args)
    }

    fn close_write(&mut self, w: A::Writer) -> (r: Result<RpWrite, ErrorKind>) {
        Accessor::close_write(&mut self.inner, w)
    }

    fn list(&self, path: &str, args: OpList) -> (r: Result<(RpList, A::Pager), ErrorKind>) {
        self.inner.list(path, args)
    }

    fn scan(&self, path: &str, args: OpScan) -> (r: Result<(RpScan, A::Pager), ErrorKind>) {
        self.inner.scan(path, args)
    }
}

impl<A: Accessor> Layer<A> for PassthroughLayer {
    type LayeredAccessor = PassthroughAccessor<A>;

    fn layer(&self, inner: A) -> (r: PassthroughAccessor<A>) {
        PassthroughAccessor { inner }
    }
}

/// A readable stream that counts the bytes it hands out, wrapping an inner
/// stream and forwarding every read to it. The counter saturates at
/// `u64::MAX`.
pub struct CountingReader<R: Read> {
    inner: R,
    count: u64,
}

impl<R: Read> CountingReader<R> {
    /// The stream this wrapper forwards to.
    pub closed spec fn inner_spec(&self) -> R {
        self.inner
    }

    /// The counter's ghost value.
    pub closed spec fn count_spec(&self) -> u64 {
        self.count
    }

    /// How many bytes this stream has handed out so far.
    pub fn bytes_read(&self) -> (r: u64)
        ensures
            r == self.count_spec(),
    {
        self.count
    }
}

impl<R: Read> Read for CountingReader<R> {
    closed spec fn remaining(&self) -> Seq<u8> {
        self.inner.remaining()
    }

    fn read(&mut self, limit: usize) -> (out: Vec<u8>)
        ensures
            final(self).count_spec() as int == if old(self).count_spec() + out@.len()
                <= u64::MAX {
                old(self).count_spec() + out@.len()
            } else {
                u64::MAX as int
            },
    {
        let out = self.inner.read(limit);
        let n = out.len() as u64;
        self.count = if self.count <= u64::MAX - n {
            self.count + n
        } else {
            u64::MAX
        };
        out
    }
}

/// Resource-handle fidelity, stream side: a counting wrapper holds exactly
/// the bytes of the stream it wraps, in the same order, so draining the
/// wrapper yields what draining the inner stream would.
pub proof fn lemma_counting_reader_fidelity<R: Read>(w: CountingReader<R>)
    ensures
        w.remaining() == w.inner_spec().remaining(),
{
}

/// A pagination cursor that counts the entries it hands out, wrapping an
/// inner cursor and forwarding every page request to it. The counter
/// saturates at `u64::MAX`.
pub struct CountingPager<P: Page> {
    inner: P,
    count: u64,
}

impl<P: Page> CountingPager<P> {
    /// The cursor this wrapper forwards to.
    pub closed spec fn inner_spec(&self) -> P {
        self.inner
    }

    /// The counter's ghost value.
    pub closed spec fn count_spec(&self) -> u64 {
        self.count
    }

    /// How many entries this cursor has handed out so far.
    pub fn entries_listed(&self) -> (r: u64)
        ensures
            r == self.count_spec(),
    {
        self.count
    }
}

impl<P: Page> Page for CountingPager<P> {
    closed spec fn items(&self) -> Seq<Seq<char>> {
        self.inner.items()
    }

    fn next_page(&mut self) -> (out: Option<Vec<Entry>>)
        ensures
            out is None ==> final(self).count_spec() == old(self).count_spec(),
            out matches Some(page) ==> final(self).count_spec() as int == if old(
                self,
            ).count_spec() + page@.len() <= u64::MAX {
                old(self).count_spec() + page@.len()
            } else {
                u64::MAX as int
            },
    {
        let out = self.inner.next_page();
        match &out {
            Some(page) => {
                let n = page.len() as u64;
                self.count = if self.count <= u64::MAX - n {
                    self.count + n
                } else {
                    u64::MAX
                };
            },
            None => {},
        }
        out
    }
}

/// Resource-handle fidelity, cursor side: a counting wrapper yields
/// exactly the item sequence of the cursor it wraps, and reaches the
/// end-of-listing signal at the same point.
pub proof fn lemma_counting_pager_fidelity<P: Page>(w: CountingPager<P>)
    ensures
        w.items() == w.inner_spec().items(),
{
}

/// A layer that counts what flows through the resource handles: its reads
/// count bytes, its listings count entries. Everything else forwards.
pub struct CountingLayer;

/// The adapter [`CountingLayer`] builds.
pub struct CountingAccessor<A: Accessor> {
    inner: A,
}

impl<A: Accessor> LayeredAccessor for CountingAccessor<A> {
    type Inner = A;

    type Reader = CountingReader<A::Reader>;

    type Writer = A::Writer;

    type Pager = CountingPager<A::Pager>;

    closed spec fn inner_spec(&self) -> A {
        self.inner
    }

    fn inner(&self) -> (r: &A) {
        &self.inner
    }

    fn inner_mut(&mut self) -> (r: &mut A) {
        &mut self.inner
    }

    fn read(&self, path: &str, args: OpRead) -> (r: Result<
        (RpRead, CountingReader<A::Reader>),
        ErrorKind,
    >) {
        match self.inner.read(path, args) {
            Ok((rp, reader)) => Ok((rp, CountingReader { inner: reader, count: 0 })),
            Err(e) => Err(e),
        }
    }

    fn write(&self, path: &str, args: OpWrite) -> (r: Result<(RpWrite, A::Writer), ErrorKind>) {
        self.inner.write(path, args)
    }

    fn close_write(&mut self, w: A::Writer) -> (r: Result<RpWrite, ErrorKind>) {
        Accessor::close_write(&mut self.inner, w)
    }

    fn list(&self, path: &str, args: OpList) -> (r: Result<
        (RpList, CountingPager<A::Pager>),
        ErrorKind,
    >) {
        match self.inner.list(path, args) {
            Ok((rp, pager)) => Ok((rp, CountingPager { inner: pager, count: 0 })),
            Err(e) => Err(e),
        }
    }

    fn scan(&self, path: &str, args: OpScan) -> (r: Result<
        (RpScan, CountingPager<A::Pager>),
        ErrorKind,
    >) {
        match self.inner.scan(path, args) {
            Ok((rp, pager)) => Ok((rp, CountingPager { inner: pager, count: 0 })),
            Err(e) => Err(e),
        }
    }
}

impl<A: Accessor> Layer<A> for CountingLayer {
    type LayeredAccessor = CountingAccessor<A>;

    fn layer(&self, inner: A) -> (r: CountingAccessor<A>) {
        CountingAccessor { inner }
    }
}

} // verus!
