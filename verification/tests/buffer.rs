//! Buffer slices: whole-buffer construction and element narrowing.

use std::sync::Arc;

use render_pass::buffer::{BufferSlice, OwnedBuffer};

fn buffer(len: usize) -> Arc<OwnedBuffer> {
    Arc::new(OwnedBuffer::new(vec![0u8; len]))
}

#[test]
fn from_covers_the_whole_buffer() {
    let buf = buffer(24);
    let slice = BufferSlice::from(&buf);
    assert_eq!(slice.offset(), 0);
    assert_eq!(slice.size(), 24);
    assert_eq!(slice.len(), 24);
    assert!(Arc::ptr_eq(slice.buffer(), &buf));
}

#[test]
fn index_narrows_to_one_element() {
    let buf = buffer(4);
    let slice = BufferSlice::from(&buf);
    let one = slice.clone().index(2).unwrap();
    assert_eq!(one.offset(), 2);
    assert_eq!(one.size(), 1);
    assert!(slice.index(4).is_none());
}

#[test]
fn slice_narrows_to_a_range() {
    let buf = buffer(16);
    let slice = BufferSlice::from(&buf);
    let part = slice.clone().slice(4..9).unwrap();
    assert_eq!(part.offset(), 4);
    assert_eq!(part.size(), 5);
    assert_eq!(part.len(), 5);
    assert!(slice.slice(3..17).is_none());
}
