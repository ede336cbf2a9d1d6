//! Behaviour of layered accessors: forwarding, composition, counting
//! handles, and the end-to-end scenario.

use layered_access::accessor::Accessor;
use layered_access::error::ErrorKind;
use layered_access::handles::{collect_entries, read_to_end, Page, Write};
use layered_access::layer::Layer;
use layered_access::layers::{CountingLayer, PassthroughLayer};
use layered_access::memory::Memory;
use layered_access::ops::{OpDelete, OpList, OpRead, OpStat, OpWrite};

fn put<A: Accessor>(acc: &mut A, path: &str, content: &[u8]) {
    let (_rp, mut w) = acc.write(path, OpWrite {}).unwrap();
    w.append(content);
    acc.close_write(w).unwrap();
}

fn seeded() -> Memory {
    let mut mem = Memory::new();
    put(&mut mem, "/a", b"hello");
    put(&mut mem, "/b", b"wide world");
    mem
}

fn full_read() -> OpRead {
    OpRead { offset: 0, size: None }
}

#[test]
fn forwarded_operations_match_the_inner_accessor() {
    let direct = seeded();
    let layered = PassthroughLayer.layer(seeded());

    assert_eq!(direct.info(), layered.info());
    assert_eq!(direct.stat("/a", OpStat {}), layered.stat("/a", OpStat {}));
    assert_eq!(direct.stat("/missing", OpStat {}), layered.stat("/missing", OpStat {}));

    let (rp_d, mut r_d) = direct.read("/b", full_read()).unwrap();
    let (rp_l, mut r_l) = layered.read("/b", full_read()).unwrap();
    assert_eq!(rp_d, rp_l);
    assert_eq!(read_to_end(&mut r_d), read_to_end(&mut r_l));
}

#[test]
fn forwarded_errors_pass_through_unchanged() {
    let layered = PassthroughLayer.layer(Memory::new());
    assert_eq!(layered.stat("/a", OpStat {}), Err(ErrorKind::NotFound));
    match layered.read("/a", full_read()) {
        Err(e) => assert_eq!(e, ErrorKind::NotFound),
        Ok(_) => panic!("a read of an absent path must fail"),
    }
}

#[test]
fn mutations_through_a_layer_reach_the_backend() {
    let mut layered = PassthroughLayer.layer(Memory::new());
    put(&mut layered, "/a", b"hello");
    assert_eq!(layered.stat("/a", OpStat {}).unwrap().content_length, 5);
    layered.delete("/a", OpDelete {}).unwrap();
    assert_eq!(layered.stat("/a", OpStat {}), Err(ErrorKind::NotFound));
}

#[test]
fn nesting_order_is_invisible_to_forwarded_operations() {
    let one_way = CountingLayer.layer(PassthroughLayer.layer(seeded()));
    let other_way = PassthroughLayer.layer(CountingLayer.layer(seeded()));

    assert_eq!(one_way.info(), other_way.info());
    assert_eq!(one_way.stat("/a", OpStat {}), other_way.stat("/a", OpStat {}));
    let (rp_1, mut r_1) = one_way.read("/a", full_read()).unwrap();
    let (rp_2, mut r_2) = other_way.read("/a", full_read()).unwrap();
    assert_eq!(rp_1, rp_2);
    assert_eq!(read_to_end(&mut r_1), read_to_end(&mut r_2));
}

#[test]
fn wrapped_reader_yields_the_same_bytes_in_the_same_order() {
    let direct = seeded();
    let layered = CountingLayer.layer(seeded());

    let (_rp, mut inner_reader) = direct.read("/b", full_read()).unwrap();
    let (_rp, mut wrapped_reader) = layered.read("/b", full_read()).unwrap();
    assert_eq!(read_to_end(&mut inner_reader), read_to_end(&mut wrapped_reader));
}

#[test]
fn wrapped_pager_yields_the_same_entries_and_terminal_signal() {
    let direct = seeded();
    let layered = CountingLayer.layer(seeded());

    let (_rp, mut inner_pager) = direct.list("/", OpList {}).unwrap();
    let (_rp, mut wrapped_pager) = layered.list("/", OpList {}).unwrap();
    let mut inner_paths: Vec<String> =
        collect_entries(&mut inner_pager).into_iter().map(|e| e.path).collect();
    let mut wrapped_paths: Vec<String> =
        collect_entries(&mut wrapped_pager).into_iter().map(|e| e.path).collect();
    inner_paths.sort();
    wrapped_paths.sort();
    assert_eq!(inner_paths, wrapped_paths);
    assert!(inner_pager.next_page().is_none());
    assert!(wrapped_pager.next_page().is_none());
}

#[test]
fn counting_pager_counts_the_entries_it_hands_out() {
    let layered = CountingLayer.layer(seeded());
    let (_rp, mut pager) = layered.list("/", OpList {}).unwrap();
    let entries = collect_entries(&mut pager);
    assert_eq!(pager.entries_listed(), entries.len() as u64);
}

#[test]
fn info_is_idempotent() {
    let layered = CountingLayer.layer(seeded());
    let first = layered.info();
    let second = layered.info();
    assert_eq!(first, second);
}

#[test]
fn counting_layer_scenario() {
    let mut mem = Memory::new();
    put(&mut mem, "/a", b"hello");
    let mut layered = CountingLayer.layer(mem);

    let (_rp, mut reader) = layered.read("/a", full_read()).unwrap();
    let bytes = read_to_end(&mut reader);
    assert_eq!(bytes, b"hello".to_vec());
    assert_eq!(reader.bytes_read(), 5);

    layered.delete("/a", OpDelete {}).unwrap();
    assert_eq!(layered.stat("/a", OpStat {}), Err(ErrorKind::NotFound));
}
