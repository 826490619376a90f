use codec_stream::buffer::PartialBuffer;

#[test]
fn cursor_partition_holds_through_advances() {
    let mut b = PartialBuffer::new(vec![1u8, 2, 3, 4, 5, 6, 7, 8]);
    assert_eq!(b.capacity(), 8);
    assert_eq!(b.written_len(), 0);
    assert_eq!(b.unwritten_len(), 8);

    b.advance(3);
    assert_eq!(b.written_len(), 3);
    assert_eq!(b.unwritten_len(), 5);
    assert_eq!(b.written_len() + b.unwritten_len(), b.capacity());

    b.advance(5);
    assert_eq!(b.written_len(), 8);
    assert_eq!(b.unwritten_len(), 0);
    assert_eq!(b.written_len() + b.unwritten_len(), b.capacity());
}

#[test]
fn advance_by_zero_changes_nothing() {
    let mut b = PartialBuffer::new(vec![9u8, 9]);
    b.advance(0);
    assert_eq!(b.written_len(), 0);
    assert_eq!(b.unwritten_len(), 2);
}

#[test]
fn into_written_returns_exactly_the_consumed_prefix() {
    let mut b = PartialBuffer::new(vec![10u8, 20, 30, 40]);
    b.advance(2);
    assert_eq!(b.into_written(), vec![10u8, 20]);
}

#[test]
fn into_written_of_fresh_buffer_is_empty() {
    let b = PartialBuffer::new(vec![1u8, 2, 3]);
    assert_eq!(b.into_written(), Vec::<u8>::new());
}
