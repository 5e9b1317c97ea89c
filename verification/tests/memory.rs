use virtual_gpu::memory::buffer::Buffer;
use virtual_gpu::memory::stack;
use virtual_gpu::memory::{Array, Raster};

#[test]
fn raster_is_row_major() {
    let raster: Raster<u32> = Buffer::from_parts([3, 2], vec![0, 1, 2, 3, 4, 5]);
    assert_eq!(raster.linearlize([0, 0]), 0);
    assert_eq!(raster.linearlize([2, 0]), 2);
    assert_eq!(raster.linearlize([0, 1]), 3);
    assert_eq!(raster.linearlize([2, 1]), 5);
    assert_eq!(*raster.get([1, 1]), 4);
}

#[test]
fn three_dimensional_position() {
    let buffer: Buffer<u8, 3> = Buffer::new([2, 3, 4]);
    assert_eq!(buffer.len(), 24);
    assert_eq!(buffer.linearlize([1, 2, 3]), 1 + 2 * 2 + 3 * 6);
}

#[test]
fn new_cells_are_default() {
    let raster: Raster<u32> = Buffer::new([4, 4]);
    assert_eq!(raster.size(), [4, 4]);
    assert!(raster.as_slice().iter().all(|&c| c == 0));
}

#[test]
fn surrounds_checks_every_dimension() {
    let raster: Raster<u8> = Buffer::new([3, 2]);
    assert!(raster.surrounds([2, 1]));
    assert!(!raster.surrounds([3, 0]));
    assert!(!raster.surrounds([0, 2]));
}

#[test]
fn try_get_outside_is_none() {
    let mut raster: Raster<u8> = Buffer::new([3, 2]);
    assert!(raster.try_get([5, 0]).is_none());
    assert!(raster.try_get_mut([0, 9]).is_none());
    assert_eq!(raster.try_get([2, 1]), Some(&0));
}

#[test]
fn write_then_read_back() {
    let mut raster: Raster<u32> = Buffer::new([3, 3]);
    *raster.get_mut([1, 2]) = 42;
    if let Some(cell) = raster.try_get_mut([2, 0]) {
        *cell = 7;
    }
    assert_eq!(*raster.get([1, 2]), 42);
    assert_eq!(*raster.get([2, 0]), 7);
    assert_eq!(*raster.get([2, 1]), 0);
    assert_eq!(raster.as_slice()[1 + 2 * 3], 42);
}

#[test]
fn fill_sets_every_cell() {
    let mut raster: Raster<f32> = Buffer::new([5, 2]);
    raster.fill(1.5);
    assert!(raster.as_slice().iter().all(|&c| c == 1.5));
}

#[test]
fn default_buffers_are_empty() {
    let raster: Raster<u8> = Default::default();
    let array: Array<u8> = Default::default();
    assert_eq!(raster.size(), [0, 0]);
    assert_eq!(array.size(), [0]);
    assert!(raster.is_empty() && array.is_empty());
}

#[test]
fn deref_mut_writes_storage() {
    let mut array: Array<i32> = Buffer::from_parts([3], vec![1, 2, 3]);
    array[1] = 9;
    assert_eq!(*array.get([1]), 9);
}

#[test]
fn stack_push_pop() {
    let mut s: stack::Vec<u32, 2> = stack::Vec::new();
    assert!(s.is_empty());
    assert_eq!(s.capacity(), 2);
    s.push(10);
    s.push(20);
    assert_eq!(s.len(), 2);
    assert_eq!(*s.peek(), 20);
    assert_eq!(s[0], 10);
    assert_eq!(s.pop(), 20);
    assert_eq!(s.pop(), 10);
    assert_eq!(s.len(), 0);
}

#[test]
fn stack_cursor_walks_bottom_first() {
    let s: stack::Vec<char, 3> = stack::Vec::from_iter(vec!['a', 'b', 'c']);
    let mut iter = s.into_iter();
    assert_eq!(iter.next(), Some(&'a'));
    assert_eq!(iter.next(), Some(&'b'));
    assert_eq!(iter.next(), Some(&'c'));
    assert_eq!(iter.next(), None);
    assert_eq!(iter.next(), None);
}
