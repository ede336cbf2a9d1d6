//! An in-memory storage backend: the reference implementation of the
//! capability interface, and the innermost accessor of most test chains.

use vstd::prelude::*;
use vstd::slice::{slice_subrange, slice_to_vec};

use crate::accessor::Accessor;
use crate::error::ErrorKind;
use crate::handles::{Page, Read, Write};
use crate::info::{AccessorInfo, Scheme};
use crate::model::{batch_model, StoreModel};
use crate::ops::{
    BatchOperation, BatchResult, Entry, OpBatch, OpCreate, OpDelete, OpList, OpPresign, OpRead,
    OpScan, OpStat, OpWrite, RpBatch, RpCreate, RpDelete, RpList, RpPresign, RpRead, RpScan,
    RpStat, RpWrite,
};
use crate::paths::{is_child, is_descendant, str_is_child, str_is_descendant};

verus! {

/// No two entries share a path.
spec fn unique_keys(es: Seq<(String, Vec<u8>)>) -> bool {
    forall|i: int, j: int|
        0 <= i < j < es.len() ==> (#[trigger] es[i]).0@ != (#[trigger] es[j]).0@
}

/// The store a sequence of entries represents.
spec fn store_of(es: Seq<(String, Vec<u8>)>) -> StoreModel
    decreases es.len(),
{
    if es.len() == 0 {
        Map::empty()
    } else {
        store_of(es.drop_last()).insert(es.last().0@, es.last().1@)
    }
}

proof fn lemma_store_of_contains(es: Seq<(String, Vec<u8>)>, k: Seq<char>)
    ensures
        store_of(es).contains_key(k) <==> (exists|i: int|
            0 <= i < es.len() && (#[trigger] es[i]).0@ == k),
    decreases es.len(),
{
    if es.len() > 0 {
        lemma_store_of_contains(es.drop_last(), k);
        if store_of(es).contains_key(k) {
            if es.last().0@ == k {
                assert(es[es.len() - 1].0@ == k);
            } else {
                let i = choose|i: int|
                    0 <= i < es.drop_last().len() && (#[trigger] es.drop_last()[i]).0@ == k;
                assert(es[i].0@ == k);
            }
        }
        if exists|i: int| 0 <= i < es.len() && (#[trigger] es[i]).0@ == k {
            let i = choose|i: int| 0 <= i < es.len() && (#[trigger] es[i]).0@ == k;
            if i < es.len() - 1 {
                assert(es.drop_last()[i].0@ == k);
            }
        }
    }
}

proof fn lemma_unique_drop_last(es: Seq<(String, Vec<u8>)>)
    requires
        unique_keys(es),
        es.len() > 0,
    ensures
        unique_keys(es.drop_last()),
{
    assert forall|i: int, j: int|
        0 <= i < j < es.drop_last().len() implies (#[trigger] es.drop_last()[i]).0@ != (
    #[trigger] es.drop_last()[j]).0@ by {
        assert(es[i].0@ != es[j].0@);
    }
}

proof fn lemma_store_of_value(es: Seq<(String, Vec<u8>)>, i: int)
    requires
        unique_keys(es),
        0 <= i < es.len(),
    ensures
        store_of(es).contains_key(es[i].0@),
        store_of(es)[es[i].0@] == es[i].1@,
    decreases es.len(),
{
    if i == es.len() - 1 {
    } else {
        lemma_unique_drop_last(es);
        lemma_store_of_value(es.drop_last(), i);
        assert(es.drop_last()[i] == es[i]);
        assert(es[i].0@ != es.last().0@);
    }
}

proof fn lemma_store_of_push(es: Seq<(String, Vec<u8>)>, p: String, c: Vec<u8>)
    ensures
        store_of(es.push((p, c))) == store_of(es).insert(p@, c@),
{
    assert(es.push((p, c)).drop_last() =~= es);
    assert(es.push((p, c)).last() == (p, c));
}

proof fn lemma_store_of_remove(es: Seq<(String, Vec<u8>)>, i: int)
    requires
        unique_keys(es),
        0 <= i < es.len(),
    ensures
        store_of(es.remove(i)) == store_of(es).remove(es[i].0@),
    decreases es.len(),
{
    let k = es[i].0@;
    if i == es.len() - 1 {
        assert(es.remove(i) =~= es.drop_last());
        lemma_store_of_contains(es.drop_last(), k);
        assert forall|j: int|
            0 <= j < es.drop_last().len() implies (#[trigger] es.drop_last()[j]).0@ != k by {
            assert(es[j].0@ != es[i].0@);
        }
        assert(!store_of(es.drop_last()).contains_key(k));
        assert(store_of(es).remove(k) =~= store_of(es.drop_last()));
    } else {
        lemma_unique_drop_last(es);
        lemma_store_of_remove(es.drop_last(), i);
        assert(es.remove(i).drop_last() =~= es.drop_last().remove(i));
        assert(es.remove(i).last() == es.last());
        assert(es.drop_last()[i] == es[i]);
        assert(es[i].0@ != es.last().0@);
        assert(store_of(es.remove(i)) == store_of(es.drop_last()).remove(k).insert(
            es.last().0@,
            es.last().1@,
        ));
        assert(store_of(es).remove(k) =~= store_of(es.drop_last()).remove(k).insert(
            es.last().0@,
            es.last().1@,
        ));
    }
}

/// The first entry holding `path`, if any.
fn find_entry(es: &Vec<(String, Vec<u8>)>, path: &str) -> (r: Option<usize>)
    ensures
        r matches Some(i) ==> i < es@.len() && es@[i as int].0@ == path@,
        r is None ==> forall|i: int| 0 <= i < es@.len() ==> (#[trigger] es@[i]).0@ != path@,
{
    let target: String = path.to_owned();
    let n = es.len();
    let mut i: usize = 0;
    while i < n
        invariant
            i <= n,
            n == es@.len(),
            target@ == path@,
            forall|j: int| 0 <= j < i ==> (#[trigger] es@[j]).0@ != path@,
        decreases n - i,
    {
        if es[i].0 == target {
            return Some(i);
        }
        i += 1;
    }
    None
}

/// Bind `path` to `content`, replacing what was there.
fn upsert(es: &mut Vec<(String, Vec<u8>)>, path: String, content: Vec<u8>)
    requires
        unique_keys(old(es)@),
    ensures
        unique_keys(final(es)@),
        store_of(final(es)@) == store_of(old(es)@).insert(path@, content@),
{
    let ghost es0 = es@;
    match find_entry(es, path.as_str()) {
        Some(i) => {
            let _removed = es.remove(i);
            proof {
                lemma_store_of_remove(es0, i as int);
                assert forall|j: int| 0 <= j < es@.len() implies (#[trigger] es@[j]).0@
                    != path@ by {
                    if j < i {
                        assert(es0[j].0@ != es0[i as int].0@);
                    } else {
                        assert(es0[j + 1].0@ != es0[i as int].0@);
                    }
                }
            }
            let ghost es1 = es@;
            es.push((path, content));
            proof {
                lemma_store_of_push(es1, path, content);
                assert(store_of(es@) =~= store_of(es0).insert(path@, content@));
                assert forall|a: int, b: int|
                    0 <= a < b < es@.len() implies (#[trigger] es@[a]).0@ != (
                #[trigger] es@[b]).0@ by {
                    if b < es@.len() - 1 {
                        assert(es1[a].0@ != es1[b].0@);
                    }
                }
            }
        },
        None => {
            let ghost es1 = es@;
            es.push((path, content));
            proof {
                lemma_store_of_push(es1, path, content);
                assert forall|a: int, b: int|
                    0 <= a < b < es@.len() implies (#[trigger] es@[a]).0@ != (
                #[trigger] es@[b]).0@ by {}
            }
        },
    }
}

/// Unbind `path`; a no-op when it is absent.
fn remove_key(es: &mut Vec<(String, Vec<u8>)>, path: &str)
    requires
        unique_keys(old(es)@),
    ensures
        unique_keys(final(es)@),
        store_of(final(es)@) == store_of(old(es)@).remove(path@),
{
    let ghost es0 = es@;
    match find_entry(es, path) {
        Some(i) => {
            let _removed = es.remove(i);
            proof {
                lemma_store_of_remove(es0, i as int);
                assert forall|a: int, b: int|
                    0 <= a < b < es@.len() implies (#[trigger] es@[a]).0@ != (
                #[trigger] es@[b]).0@ by {
                    let a0 = if a < i { a } else { a + 1 };
                    let b0 = if b < i { b } else { b + 1 };
                    assert(es0[a0].0@ != es0[b0].0@);
                }
            }
        },
        None => {
            proof {
                lemma_store_of_contains(es0, path@);
                assert(store_of(es@) =~= store_of(es0).remove(path@));
            }
        },
    }
}

/// The readable stream the in-memory backend hands out: a snapshot of the
/// requested range, consumed from the front.
pub struct MemoryReader {
    data: Vec<u8>,
    pos: usize,
}

impl MemoryReader {
    #[verifier::type_invariant]
    spec fn wf(self) -> bool {
        self.pos <= self.data@.len()
    }
}

impl Read for MemoryReader {
    closed spec fn remaining(&self) -> Seq<u8> {
        self.data@.skip(self.pos as int)
    }

    fn read(&mut self, limit: usize) -> (out: Vec<u8>) {
        proof {
            use_type_invariant(&*self);
        }
        let avail = self.data.len() - self.pos;
        let n = if limit < avail {
            limit
        } else {
            avail
        };
        let s = slice_subrange(self.data.as_slice(), self.pos, self.pos + n);
        let out = slice_to_vec(s);
        proof {
            let p = self.pos as int;
            let k = n as int;
            assert(self.data@.subrange(p, p + k) =~= self.data@.skip(p).take(k));
            assert(self.data@.skip(p + k) =~= self.data@.skip(p).skip(k));
        }
        self.pos = self.pos + n;
        out
    }
}

/// The writable sink the in-memory backend hands out: buffers bytes until
/// the backend commits them.
pub struct MemoryWriter {
    path: String,
    buf: Vec<u8>,
}

impl Write for MemoryWriter {
    closed spec fn target(&self) -> Seq<char> {
        self.path@
    }

    closed spec fn buffered(&self) -> Seq<u8> {
        self.buf@
    }

    fn append(&mut self, bs: &[u8]) {
        let n = bs.len();
        let mut i: usize = 0;
        while i < n
            invariant
                i <= n,
                n == bs@.len(),
                self.path@ == old(self).path@,
                self.buf@ == old(self).buf@ + bs@.take(i as int),
            decreases n - i,
        {
            let ghost before = self.buf@;
            let b = *vstd::slice::slice_index_get(bs, i);
            self.buf.push(b);
            proof {
                assert(before.push(b) =~= old(self).buf@ + bs@.take(i + 1));
            }
            i += 1;
        }
        proof {
            assert(bs@.take(n as int) =~= bs@);
        }
    }
}


/// The pagination cursor the in-memory backend hands out: a snapshot of the
/// selected entries, yielded as one page.
pub struct MemoryPager {
    entries: Vec<Entry>,
}

impl Page for MemoryPager {
    closed spec fn items(&self) -> Seq<Seq<char>> {
        self.entries@.map_values(|e: Entry| e@)
    }

    fn next_page(&mut self) -> (out: Option<Vec<Entry>>) {
        if self.entries.len() == 0 {
            None
        } else {
            let mut page: Vec<Entry> = Vec::new();
            core::mem::swap(&mut page, &mut self.entries);
            proof {
                let mapped = page@.map_values(|e: Entry| e@);
                assert(mapped.take(page@.len() as int) =~= mapped);
                assert(self.entries@.map_values(|e: Entry| e@) =~= mapped.skip(
                    page@.len() as int,
                ));
            }
            Some(page)
        }
    }
}

/// Whether a selection keeps direct children only, or every descendant.
spec fn keep_key(child_only: bool, p: Seq<char>, k: Seq<char>) -> bool {
    if child_only {
        is_child(p, k)
    } else {
        is_descendant(p, k)
    }
}

/// The in-memory backend: a flat collection of path-addressed byte
/// entries, observable exactly as its store model.
pub struct Memory {
    entries: Vec<(String, Vec<u8>)>,
}

impl Memory {
    #[verifier::type_invariant]
    spec fn wf(self) -> bool {
        unique_keys(self.entries@)
    }

    /// An empty in-memory backend.
    pub fn new() -> (r: Memory)
        ensures
            r.store() == Map::<Seq<char>, Seq<u8>>::empty(),
            r.info_spec() == (AccessorInfo {
                scheme: Scheme::Memory,
                can_read: true,
                can_write: true,
                can_list: true,
                can_scan: true,
                can_batch: true,
                can_presign: false,
            }),
    {
        Memory { entries: Vec::new() }
    }

    /// The entries below `path`, direct children only when `child_only`.
    fn select(&self, path: &str, child_only: bool) -> (out: Vec<Entry>)
        ensures
            out@.map_values(|e: Entry| e@).to_set() == self.store().dom().filter(
                |k: Seq<char>| keep_key(child_only, path@, k),
            ),
            out@.map_values(|e: Entry| e@).no_duplicates(),
    {
        proof {
            use_type_invariant(&*self);
        }
        let n = self.entries.len();
        let mut out: Vec<Entry> = Vec::new();
        let mut i: usize = 0;
        while i < n
            invariant
                i <= n,
                n == self.entries@.len(),
                unique_keys(self.entries@),
                forall|a: int|
                    #![trigger out@[a]]
                    0 <= a < out@.len() ==> exists|j: int|
                        0 <= j < i && out@[a]@ == (#[trigger] self.entries@[j]).0@ && keep_key(
                            child_only,
                            path@,
                            self.entries@[j].0@,
                        ),
                forall|j: int|
                    0 <= j < i && keep_key(child_only, path@, (#[trigger] self.entries@[j]).0@)
                        ==> exists|a: int| 0 <= a < out@.len() && (#[trigger] out@[a])@
                        == self.entries@[j].0@,
                forall|a: int, b: int|
                    0 <= a < b < out@.len() ==> (#[trigger] out@[a])@ != (#[trigger] out@[b])@,
            decreases n - i,
        {
            let e = &self.entries[i];
            let keep = if child_only {
                str_is_child(path, e.0.as_str())
            } else {
                str_is_descendant(path, e.0.as_str())
            };
            let ghost out0 = out@;
            if keep {
                out.push(Entry { path: e.0.clone() });
            }
            proof {
                assert forall|a: int| #![trigger out@[a]] 0 <= a < out@.len() implies exists|
                    j: int,
                |
                    0 <= j < i + 1 && out@[a]@ == (#[trigger] self.entries@[j]).0@ && keep_key(
                        child_only,
                        path@,
                        self.entries@[j].0@,
                    ) by {
                    if a < out0.len() {
                        assert(out@[a] == out0[a]);
                        let j = choose|j: int|
                            0 <= j < i && out0[a]@ == (#[trigger] self.entries@[j]).0@
                                && keep_key(child_only, path@, self.entries@[j].0@);
                        assert(out@[a]@ == (self.entries@[j]).0@ && keep_key(
                            child_only,
                            path@,
                            self.entries@[j].0@,
                        ));
                    } else {
                        assert(out@[a]@ == (self.entries@[i as int]).0@ && keep_key(
                            child_only,
                            path@,
                            self.entries@[i as int].0@,
                        ));
                    }
                }
                assert forall|j: int|
                    0 <= j < i + 1 && keep_key(
                        child_only,
                        path@,
                        (#[trigger] self.entries@[j]).0@,
                    ) implies exists|a: int|
                    0 <= a < out@.len() && (#[trigger] out@[a])@ == self.entries@[j].0@ by {
                    if j == i {
                        assert((out@[out@.len() - 1])@ == self.entries@[j].0@);
                    } else {
                        let a = choose|a: int|
                            0 <= a < out0.len() && (#[trigger] out0[a])@ == self.entries@[j].0@;
                        assert(out@[a]@ == self.entries@[j].0@);
                    }
                }
                assert forall|a: int, b: int|
                    0 <= a < b < out@.len() implies (#[trigger] out@[a])@ != (
                #[trigger] out@[b])@ by {
                    if b < out0.len() {
                        assert(out0[a]@ != out0[b]@);
                    } else if out@.len() > out0.len() {
                        let j = choose|j: int|
                            0 <= j < i && out0[a]@ == (#[trigger] self.entries@[j]).0@
                                && keep_key(child_only, path@, self.entries@[j].0@);
                        assert(self.entries@[j].0@ != self.entries@[i as int].0@);
                    }
                }
            }
            i += 1;
        }
        proof {
            let mapped = out@.map_values(|e: Entry| e@);
            let target = self.store().dom().filter(|k: Seq<char>| keep_key(child_only, path@, k));
            assert forall|k: Seq<char>| #[trigger] mapped.to_set().contains(k) implies target.contains(
                k,
            ) by {
                let a = choose|a: int| 0 <= a < mapped.len() && mapped[a] == k;
                assert(out@[a]@ == k);
                let j = choose|j: int|
                    0 <= j < n && out@[a]@ == (#[trigger] self.entries@[j]).0@ && keep_key(
                        child_only,
                        path@,
                        self.entries@[j].0@,
                    );
                lemma_store_of_contains(self.entries@, k);
                assert(self.entries@[j].0@ == k);
            }
            assert forall|k: Seq<char>| #[trigger] target.contains(k) implies mapped.to_set().contains(
                k,
            ) by {
                lemma_store_of_contains(self.entries@, k);
                let j = choose|j: int| 0 <= j < n && (#[trigger] self.entries@[j]).0@ == k;
                assert(keep_key(child_only, path@, self.entries@[j].0@));
                let a = choose|a: int|
                    0 <= a < out@.len() && (#[trigger] out@[a])@ == self.entries@[j].0@;
                assert(mapped[a] == k);
            }
            assert(mapped.to_set() =~= target);
        }
        out
    }
}

impl Accessor for Memory {
    type Reader = MemoryReader;

    type Writer = MemoryWriter;

    type Pager = MemoryPager;

    closed spec fn store(&self) -> StoreModel {
        store_of(self.entries@)
    }

    closed spec fn info_spec(&self) -> AccessorInfo {
        AccessorInfo {
            scheme: Scheme::Memory,
            can_read: true,
            can_write: true,
            can_list: true,
            can_scan: true,
            can_batch: true,
            can_presign: false,
        }
    }

    fn info(&self) -> (r: AccessorInfo) {
        AccessorInfo {
            scheme: Scheme::Memory,
            can_read: true,
            can_write: true,
            can_list: true,
            can_scan: true,
            can_batch: true,
            can_presign: false,
        }
    }

    fn create(&mut self, path: &str, args: OpCreate) -> (r: Result<RpCreate, ErrorKind>) {
        proof {
            use_type_invariant(&*self);
        }
        let mut es: Vec<(String, Vec<u8>)> = Vec::new();
        core::mem::swap(&mut es, &mut self.entries);
        let empty: Vec<u8> = Vec::new();
        upsert(&mut es, path.to_owned(), empty);
        self.entries = es;
        Ok(RpCreate {})
    }

    fn read(&self, path: &str, args: OpRead) -> (r: Result<(RpRead, MemoryReader), ErrorKind>) {
        proof {
            use_type_invariant(&*self);
            lemma_store_of_contains(self.entries@, path@);
        }
        match find_entry(&self.entries, path) {
            Some(i) => {
                proof {
                    lemma_store_of_value(self.entries@, i as int);
                }
                let content = &self.entries[i].1;
                let len = content.len();
                if args.offset > len {
                    return Err(ErrorKind::InvalidInput);
                }
                let avail = len - args.offset;
                let take_n = match args.size {
                    Some(s) => if s < avail {
                        s
                    } else {
                        avail
                    },
                    None => avail,
                };
                let s = slice_subrange(content.as_slice(), args.offset, args.offset + take_n);
                let data = slice_to_vec(s);
                let reader = MemoryReader { data, pos: 0 };
                proof {
                    assert(reader.remaining() =~= reader.data@);
                }
                Ok((RpRead { size: take_n as u64 }, reader))
            },
            None => Err(ErrorKind::NotFound),
        }
    }

    fn write(&self, path: &str, args: OpWrite) -> (r: Result<(RpWrite, MemoryWriter), ErrorKind>) {
        Ok((RpWrite { written: 0 }, MemoryWriter { path: path.to_owned(), buf: Vec::new() }))
    }

    fn close_write(&mut self, w: MemoryWriter) -> (r: Result<RpWrite, ErrorKind>) {
        proof {
            use_type_invariant(&*self);
        }
        let MemoryWriter { path, buf } = w;
        let written = buf.len();
        let mut es: Vec<(String, Vec<u8>)> = Vec::new();
        core::mem::swap(&mut es, &mut self.entries);
        upsert(&mut es, path, buf);
        self.entries = es;
        Ok(RpWrite { written: written as u64 })
    }

    fn stat(&self, path: &str, args: OpStat) -> (r: Result<RpStat, ErrorKind>) {
        proof {
            use_type_invariant(&*self);
            lemma_store_of_contains(self.entries@, path@);
        }
        match find_entry(&self.entries, path) {
            Some(i) => {
                proof {
                    lemma_store_of_value(self.entries@, i as int);
                }
                let len = self.entries[i].1.len();
                Ok(RpStat { content_length: len as u64 })
            },
            None => Err(ErrorKind::NotFound),
        }
    }

    fn delete(&mut self, path: &str, args: OpDelete) -> (r: Result<RpDelete, ErrorKind>) {
        proof {
            use_type_invariant(&*self);
        }
        let mut es: Vec<(String, Vec<u8>)> = Vec::new();
        core::mem::swap(&mut es, &mut self.entries);
        remove_key(&mut es, path);
        self.entries = es;
        Ok(RpDelete {})
    }

    fn list(&self, path: &str, args: OpList) -> (r: Result<(RpList, MemoryPager), ErrorKind>) {
        let entries = self.select(path, true);
        proof {
            assert(entries@.map_values(|e: Entry| e@).to_set() =~= self.store().dom().filter(
                |k: Seq<char>| is_child(path@, k),
            ));
        }
        Ok((RpList {}, MemoryPager { entries }))
    }

    fn scan(&self, path: &str, args: OpScan) -> (r: Result<(RpScan, MemoryPager), ErrorKind>) {
        let entries = self.select(path, false);
        proof {
            assert(entries@.map_values(|e: Entry| e@).to_set() =~= self.store().dom().filter(
                |k: Seq<char>| is_descendant(path@, k),
            ));
        }
        Ok((RpScan {}, MemoryPager { entries }))
    }

    fn batch(&mut self, args: OpBatch) -> (r: Result<RpBatch, ErrorKind>) {
        proof {
            use_type_invariant(&*self);
        }
        let mut es: Vec<(String, Vec<u8>)> = Vec::new();
        core::mem::swap(&mut es, &mut self.entries);
        let ghost store0 = store_of(es@);
        let n = args.ops.len();
        let mut results: Vec<BatchResult> = Vec::new();
        let mut i: usize = 0;
        while i < n
            invariant
                i <= n,
                n == args.ops@.len(),
                unique_keys(es@),
                store_of(es@) == batch_model(store0, args.ops@.take(i as int)),
                results@.len() == i,
                forall|j: int|
                    0 <= j < i ==> (#[trigger] results@[j])@ == (
                crate::model::batch_op_path(args.ops@[j]),
                None::<ErrorKind>,
                ),
            decreases n - i,
        {
            proof {
                crate::model::lemma_batch_model_unfold(store0, args.ops@, i as int);
            }
            match &args.ops[i] {
                BatchOperation::Create(p) => {
                    let empty: Vec<u8> = Vec::new();
                    upsert(&mut es, p.clone(), empty);
                    results.push(BatchResult { path: p.clone(), error: None });
                },
                BatchOperation::Delete(p) => {
                    remove_key(&mut es, p.as_str());
                    results.push(BatchResult { path: p.clone(), error: None });
                },
            }
            i += 1;
        }
        self.entries = es;
        proof {
            assert(args.ops@.take(n as int) =~= args.ops@);
        }
        Ok(RpBatch { results })
    }

    fn presign(&self, path: &str, args: OpPresign) -> (r: Result<RpPresign, ErrorKind>) {
        Err(ErrorKind::Unsupported)
    }
}

} // verus!
