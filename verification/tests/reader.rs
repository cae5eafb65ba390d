use framed_echo::reader::ExactRead;

#[test]
fn assembles_single_chunk() {
    let mut r = ExactRead::new(4);
    assert_eq!(r.needed(), 4);
    assert!(!r.is_done());
    assert!(!r.is_started());
    r.push_chunk(&[14, 0, 0, 0]);
    assert!(r.is_done());
    assert_eq!(r.needed(), 0);
    assert_eq!(r.take(), vec![14, 0, 0, 0]);
}

#[test]
fn fragmentation_does_not_change_the_data() {
    let bytes = b"Hello, server!";
    // One delivery per byte.
    let mut bytewise = ExactRead::new(bytes.len());
    for b in bytes.iter() {
        bytewise.push_chunk(&[*b]);
    }
    // Uneven deliveries, empty ones included.
    let mut uneven = ExactRead::new(bytes.len());
    uneven.push_chunk(&bytes[0..3]);
    uneven.push_chunk(&[]);
    uneven.push_chunk(&bytes[3..10]);
    uneven.push_chunk(&bytes[10..]);
    // One delivery of the whole.
    let mut whole = ExactRead::new(bytes.len());
    whole.push_chunk(bytes);
    assert!(bytewise.is_done() && uneven.is_done() && whole.is_done());
    let assembled = bytewise.take();
    assert_eq!(assembled, uneven.take());
    assert_eq!(assembled, whole.take());
    assert_eq!(assembled, bytes.to_vec());
}

#[test]
fn tracks_partial_progress() {
    let mut r = ExactRead::new(10);
    r.push_chunk(&[1, 2, 3]);
    assert!(r.is_started());
    assert!(!r.is_done());
    assert_eq!(r.needed(), 7);
    r.push_chunk(&[4, 5, 6, 7, 8, 9]);
    assert_eq!(r.needed(), 1);
    r.push_chunk(&[10]);
    assert!(r.is_done());
    assert_eq!(r.take(), vec![1, 2, 3, 4, 5, 6, 7, 8, 9, 10]);
}

#[test]
fn zero_length_read_completes_at_once() {
    let r = ExactRead::new(0);
    assert!(r.is_done());
    assert!(!r.is_started());
    assert_eq!(r.take(), Vec::<u8>::new());
}
