use thunderscope::capture::RingSlice;
use thunderscope::RingCursor;

#[test]
fn test_ring_buffer_simple() {
    let mut buf = RingSlice::new(8).unwrap();
    buf.write_at(0, &[1, 2, 3, 4, 5, 6, 7, 8]);
    assert_eq!(buf.read_at(0, 4), vec![1, 2, 3, 4]);
    assert_eq!(buf.read_at(2, 4), vec![3, 4, 5, 6]);
    assert_eq!(buf.read_at(4, 4), vec![5, 6, 7, 8]);
    assert_eq!(buf.read_at(5, 3), vec![6, 7, 8]);
    let rotated = buf.read_at(5, buf.len());
    assert_eq!(rotated[buf.len() - 5..], [1, 2, 3, 4, 5]);
}

#[test]
fn test_ring_buffer_overlap() {
    let mut buf = RingSlice::new(8192).unwrap();
    assert_eq!(buf.len(), 8192);
    buf.write_at(8186, &[1, 2, 3, 4, 5, 6]);
    buf.write_at(0, &[7, 8, 9, 10, 11, 12]);
    assert_eq!(buf.read_at(8186, 6), vec![1, 2, 3, 4, 5, 6]);
    assert_eq!(buf.read_at(0, 6), vec![7, 8, 9, 10, 11, 12]);
    assert_eq!(buf.read_at(8186, 12), vec![1, 2, 3, 4, 5, 6, 7, 8, 9, 10, 11, 12]);
}

#[test]
fn test_ring_cursor() {
    let cursor = RingCursor::new(128);
    assert_eq!(cursor.plus(10).into_inner(), 10);
    assert_eq!(cursor.plus(10).plus(120).into_inner(), 2);
    assert_eq!(cursor.plus(130).into_inner(), 2);
    assert_eq!(cursor.minus(10).into_inner(), 118);
    assert_eq!(cursor.minus(130).into_inner(), 126);
    assert_eq!(cursor.plus(0), cursor);
    let mut cursor = cursor;
    cursor = cursor.plus(10);
    assert_eq!(cursor.into_inner(), 10);
    cursor = cursor.minus(20);
    assert_eq!(cursor.into_inner(), 118);
}

#[test]
fn test_ring_cursor_non_power_of_two_bound() {
    // subtraction stays modular even when the bound does not divide any
    // power of two
    let cursor = RingCursor::new(100);
    assert_eq!(cursor.minus(1).into_inner(), 99);
    assert_eq!(cursor.plus(7).minus(250).into_inner(), 57);
}

#[test]
fn test_ring_buffer_append_read() {
    let mut buf = thunderscope::RingBuffer::new(8).unwrap();
    let len = buf.len();
    let start = buf.cursor();
    buf.append(&[17, 18, 19]);
    assert_eq!(buf.cursor().into_inner(), 3);
    let samples = buf.read(start, 3);
    assert_eq!(samples, vec![17, 18, 19]);
    // appends that run past the seam wrap, and a read across the seam is
    // contiguous
    buf.append(&vec![1u8; len - 5]);
    assert_eq!(buf.cursor().into_inner(), len - 2);
    buf.append(&[250, 251, 252, 253]); // -6, -5, -4, -3 as samples
    assert_eq!(buf.cursor().into_inner(), 2);
    let across = buf.read(start.plus(len - 2), 4);
    assert_eq!(across, vec![-6, -5, -4, -3]);
}
