//! Behaviour of the in-memory backend through the capability interface.

use layered_access::accessor::Accessor;
use layered_access::error::ErrorKind;
use layered_access::handles::{collect_entries, read_to_end, Page, Write};
use layered_access::info::Scheme;
use layered_access::memory::Memory;
use layered_access::ops::{
    BatchOperation, OpBatch, OpCreate, OpDelete, OpList, OpPresign, OpRead, OpScan, OpStat,
    OpWrite,
};

fn put(mem: &mut Memory, path: &str, content: &[u8]) {
    let (_rp, mut w) = mem.write(path, OpWrite {}).unwrap();
    w.append(content);
    let rp = mem.close_write(w).unwrap();
    assert_eq!(rp.written, content.len() as u64);
}

fn full_read() -> OpRead {
    OpRead { offset: 0, size: None }
}

#[test]
fn stat_missing_is_not_found() {
    let mem = Memory::new();
    assert_eq!(mem.stat("/a", OpStat {}), Err(ErrorKind::NotFound));
}

#[test]
fn create_makes_empty_entry() {
    let mut mem = Memory::new();
    mem.create("/a", OpCreate {}).unwrap();
    let rp = mem.stat("/a", OpStat {}).unwrap();
    assert_eq!(rp.content_length, 0);
}

#[test]
fn create_is_idempotent_and_truncates() {
    let mut mem = Memory::new();
    put(&mut mem, "/a", b"hello");
    mem.create("/a", OpCreate {}).unwrap();
    assert_eq!(mem.stat("/a", OpStat {}).unwrap().content_length, 0);
}

#[test]
fn write_then_read_roundtrip() {
    let mut mem = Memory::new();
    put(&mut mem, "/a", b"hello");
    let (rp, mut reader) = mem.read("/a", full_read()).unwrap();
    assert_eq!(rp.size, 5);
    assert_eq!(read_to_end(&mut reader), b"hello".to_vec());
}

#[test]
fn read_respects_offset_and_size() {
    let mut mem = Memory::new();
    put(&mut mem, "/a", b"hello");
    let (rp, mut reader) = mem.read("/a", OpRead { offset: 1, size: Some(3) }).unwrap();
    assert_eq!(rp.size, 3);
    assert_eq!(read_to_end(&mut reader), b"ell".to_vec());
}

#[test]
fn read_size_is_clamped_to_the_end() {
    let mut mem = Memory::new();
    put(&mut mem, "/a", b"hello");
    let (rp, mut reader) = mem.read("/a", OpRead { offset: 3, size: Some(100) }).unwrap();
    assert_eq!(rp.size, 2);
    assert_eq!(read_to_end(&mut reader), b"lo".to_vec());
}

#[test]
fn read_past_the_end_is_invalid_input() {
    let mut mem = Memory::new();
    put(&mut mem, "/a", b"hello");
    match mem.read("/a", OpRead { offset: 6, size: None }) {
        Err(e) => assert_eq!(e, ErrorKind::InvalidInput),
        Ok(_) => panic!("a read past the end must fail"),
    }
}

#[test]
fn read_missing_is_not_found() {
    let mem = Memory::new();
    match mem.read("/a", full_read()) {
        Err(e) => assert_eq!(e, ErrorKind::NotFound),
        Ok(_) => panic!("a read of an absent path must fail"),
    }
}

#[test]
fn overwrite_replaces_content() {
    let mut mem = Memory::new();
    put(&mut mem, "/a", b"hello");
    put(&mut mem, "/a", b"world!");
    assert_eq!(mem.stat("/a", OpStat {}).unwrap().content_length, 6);
    let (_rp, mut reader) = mem.read("/a", full_read()).unwrap();
    assert_eq!(read_to_end(&mut reader), b"world!".to_vec());
}

#[test]
fn delete_removes_and_is_idempotent() {
    let mut mem = Memory::new();
    put(&mut mem, "/a", b"hello");
    mem.delete("/a", OpDelete {}).unwrap();
    assert_eq!(mem.stat("/a", OpStat {}), Err(ErrorKind::NotFound));
    mem.delete("/a", OpDelete {}).unwrap();
}

fn sorted_paths(entries: Vec<layered_access::ops::Entry>) -> Vec<String> {
    let mut paths: Vec<String> = entries.into_iter().map(|e| e.path).collect();
    paths.sort();
    paths
}

#[test]
fn list_yields_direct_children_only() {
    let mut mem = Memory::new();
    put(&mut mem, "/a", b"1");
    put(&mut mem, "/dir/x", b"2");
    put(&mut mem, "/dir/y", b"3");
    put(&mut mem, "/dir/sub/z", b"4");
    let (_rp, mut pager) = mem.list("/", OpList {}).unwrap();
    assert_eq!(sorted_paths(collect_entries(&mut pager)), vec!["/a".to_string()]);
    let (_rp, mut pager) = mem.list("/dir/", OpList {}).unwrap();
    assert_eq!(
        sorted_paths(collect_entries(&mut pager)),
        vec!["/dir/x".to_string(), "/dir/y".to_string()]
    );
}

#[test]
fn scan_yields_every_descendant() {
    let mut mem = Memory::new();
    put(&mut mem, "/a", b"1");
    put(&mut mem, "/dir/x", b"2");
    put(&mut mem, "/dir/sub/z", b"3");
    let (_rp, mut pager) = mem.scan("/dir/", OpScan {}).unwrap();
    assert_eq!(
        sorted_paths(collect_entries(&mut pager)),
        vec!["/dir/sub/z".to_string(), "/dir/x".to_string()]
    );
}

#[test]
fn list_of_nothing_is_empty_and_terminal() {
    let mem = Memory::new();
    let (_rp, mut pager) = mem.list("/", OpList {}).unwrap();
    assert!(pager.next_page().is_none());
}

#[test]
fn batch_reports_outcomes_in_input_order() {
    let mut mem = Memory::new();
    let ops = vec![
        BatchOperation::Create("/a".to_string()),
        BatchOperation::Create("/b".to_string()),
        BatchOperation::Delete("/a".to_string()),
    ];
    let rp = mem.batch(OpBatch { ops }).unwrap();
    assert_eq!(rp.results.len(), 3);
    assert_eq!(rp.results[0].path, "/a");
    assert_eq!(rp.results[1].path, "/b");
    assert_eq!(rp.results[2].path, "/a");
    assert!(rp.results.iter().all(|r| r.error.is_none()));
    assert_eq!(mem.stat("/a", OpStat {}), Err(ErrorKind::NotFound));
    assert_eq!(mem.stat("/b", OpStat {}).unwrap().content_length, 0);
}

#[test]
fn presign_is_unsupported_on_memory() {
    let mem = Memory::new();
    match mem.presign("/a", OpPresign { expires_secs: 60 }) {
        Err(e) => assert_eq!(e, ErrorKind::Unsupported),
        Ok(_) => panic!("the in-memory backend cannot presign"),
    }
}

#[test]
fn info_names_the_memory_scheme() {
    let mem = Memory::new();
    let info = mem.info();
    assert_eq!(info.scheme, Scheme::Memory);
    assert!(info.can_read && info.can_write && info.can_list && info.can_scan && info.can_batch);
    assert!(!info.can_presign);
}
