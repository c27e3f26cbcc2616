use chunkworld::arena::{BufferArena, Region};

#[test]
fn new_region_starts_empty_at_given_capacity() {
    let r = Region::new(100);
    assert_eq!(r.capacity(), 100);
    assert!(r.contents().is_empty());
}

#[test]
fn write_within_capacity_keeps_capacity_and_stores_bytes() {
    let mut r = Region::new(100);
    let content = vec![7u8; 50];
    let grew = r.write(&content);
    assert!(!grew);
    assert_eq!(r.capacity(), 100);
    assert_eq!(r.contents(), &content);
}

#[test]
fn write_beyond_capacity_grows_to_exact_size() {
    let mut r = Region::new(10);
    let content: Vec<u8> = (0..25).collect();
    let grew = r.write(&content);
    assert!(grew);
    assert_eq!(r.capacity(), 25);
    assert_eq!(r.contents(), &content);
}

#[test]
fn capacity_never_shrinks_on_smaller_writes() {
    let mut r = Region::new(10);
    let big: Vec<u8> = (0..25).collect();
    assert!(r.write(&big));
    let small = vec![9u8; 5];
    let grew = r.write(&small);
    assert!(!grew);
    assert_eq!(r.capacity(), 25);
    assert_eq!(r.contents(), &small);
}

#[test]
fn write_of_exactly_the_capacity_does_not_grow() {
    let mut r = Region::new(8);
    let content = vec![1u8; 8];
    assert!(!r.write(&content));
    assert_eq!(r.capacity(), 8);
    assert_eq!(r.contents(), &content);
}

#[test]
fn ensure_capacity_grows_only_upward() {
    let mut r = Region::new(8);
    assert!(!r.ensure_capacity(4));
    assert_eq!(r.capacity(), 8);
    assert!(r.ensure_capacity(16));
    assert_eq!(r.capacity(), 16);
    assert!(r.contents().is_empty());
}

#[test]
fn arena_syncs_both_regions_independently() {
    let mut arena = BufferArena::new(4, 4);
    let vertex_bytes: Vec<u8> = (0..8).collect();
    let index_bytes = vec![3u8, 1];
    let (vertex_grew, index_grew) = arena.sync(&vertex_bytes, &index_bytes);
    assert!(vertex_grew);
    assert!(!index_grew);
    assert_eq!(arena.vertex_region.capacity(), 8);
    assert_eq!(arena.index_region.capacity(), 4);
    assert_eq!(arena.vertex_region.contents(), &vertex_bytes);
    assert_eq!(arena.index_region.contents(), &index_bytes);
}
