//! The three resource-handle contracts: readable stream, writable sink,
//! pagination cursor.
//!
//! A handle is created by exactly one operation (`read`, `write`, `list` or
//! `scan`), owned by the caller that received it, and consumed or dropped
//! after use. Every accessor declares one concrete handle type per kind,
//! fixed at composition time; a layer that wants byte-level or item-level
//! interception returns its own handle type wrapping the inner one.

use vstd::prelude::*;

use crate::ops::Entry;

verus! {

/// A readable stream of bytes.
pub trait Read: Sized {
    /// The bytes the stream has still to yield.
    spec fn remaining(&self) -> Seq<u8>;

    /// Yield the next `limit` bytes, fewer only at the end of the stream.
    fn read(&mut self, limit: usize) -> (out: Vec<u8>)
        ensures
            ({
                let n = if (limit as int) <= old(self).remaining().len() {
                    limit as int
                } else {
                    old(self).remaining().len() as int
                };
                out@ == old(self).remaining().take(n) && final(self).remaining() == old(
                    self,
                ).remaining().skip(n)
            }),
    ;
}

/// A writable sink of bytes, opened at a fixed target path.
///
/// Bytes are buffered in order; handing the sink back to the accessor that
/// opened it (`close_write`) commits the buffered content to the target.
pub trait Write: Sized {
    /// The path the sink was opened at.
    spec fn target(&self) -> Seq<char>;

    /// The bytes fed to the sink so far, in order.
    spec fn buffered(&self) -> Seq<u8>;

    /// Feed `bs` to the sink.
    fn append(&mut self, bs: &[u8])
        ensures
            final(self).target() == old(self).target(),
            final(self).buffered() == old(self).buffered() + bs@,
    ;
}

/// A pagination cursor over the entries of a listing.
pub trait Page: Sized {
    /// The entry paths the cursor has still to yield, in order.
    spec fn items(&self) -> Seq<Seq<char>>;

    /// Yield the next page: a non-empty batch of the remaining entries, or
    /// `None` exactly at the end of the listing.
    fn next_page(&mut self) -> (out: Option<Vec<Entry>>)
        ensures
            out is None ==> old(self).items().len() == 0 && final(self).items() == old(
                self,
            ).items(),
            out matches Some(page) ==> 0 < page@.len() <= old(self).items().len() && page@.map_values(
                |e: Entry| e@,
            ) == old(self).items().take(page@.len() as int) && final(self).items() == old(
                self,
            ).items().skip(page@.len() as int),
    ;
}

/// Drain a readable stream: the bytes come out exactly as the stream held
/// them, in order.
pub fn read_to_end<R: Read>(r: &mut R) -> (out: Vec<u8>)
    ensures
        out@ == old(r).remaining(),
        final(r).remaining() == Seq::<u8>::empty(),
{
    let mut out: Vec<u8> = Vec::new();
    loop
        invariant
            out@ + r.remaining() == old(r).remaining(),
        ensures
            out@ + r.remaining() == old(r).remaining(),
            r.remaining().len() == 0,
        decreases r.remaining().len(),
    {
        let ghost before = r.remaining();
        let mut chunk = r.read(4096);
        if chunk.len() == 0 {
            proof {
                assert(before.skip(0) =~= before);
                assert(before.len() == 0) by {
                    if before.len() > 0 {
                        assert(chunk@ == before.take(
                            if 4096 <= before.len() {
                                4096int
                            } else {
                                before.len() as int
                            },
                        ));
                    }
                }
            }
            break;
        }
        proof {
            let n = chunk@.len() as int;
            assert(before.take(n) + before.skip(n) =~= before);
            assert((out@ + before.take(n)) + before.skip(n) =~= out@ + before);
        }
        out.append(&mut chunk);
    }
    proof {
        assert(r.remaining() =~= Seq::<u8>::empty());
        assert(out@ + Seq::<u8>::empty() =~= out@);
    }
    out
}

/// Drain a pagination cursor: the entries come out exactly as the cursor
/// held them, in order, and the terminal signal comes exactly at the end.
pub fn collect_entries<P: Page>(p: &mut P) -> (out: Vec<Entry>)
    ensures
        out@.map_values(|e: Entry| e@) == old(p).items(),
        final(p).items() == Seq::<Seq<char>>::empty(),
{
    let mut out: Vec<Entry> = Vec::new();
    loop
        invariant
            out@.map_values(|e: Entry| e@) + p.items() == old(p).items(),
        ensures
            out@.map_values(|e: Entry| e@) + p.items() == old(p).items(),
            p.items().len() == 0,
        decreases p.items().len(),
    {
        let ghost before = p.items();
        match p.next_page() {
            None => {
                break;
            },
            Some(mut page) => {
                proof {
                    let n = page@.len() as int;
                    assert(before.take(n) + before.skip(n) =~= before);
                    assert((out@.map_values(|e: Entry| e@) + before.take(n)) + before.skip(n)
                        =~= out@.map_values(|e: Entry| e@) + before);
                    assert((out@ + page@).map_values(|e: Entry| e@) =~= out@.map_values(
                        |e: Entry| e@,
                    ) + page@.map_values(|e: Entry| e@));
                }
                out.append(&mut page);
            },
        }
    }
    proof {
        assert(p.items() =~= Seq::<Seq<char>>::empty());
        assert(out@.map_values(|e: Entry| e@) + Seq::<Seq<char>>::empty() =~= out@.map_values(
            |e: Entry| e@,
        ));
    }
    out
}

} // verus!
