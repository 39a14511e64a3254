use backend_supervisor::output::{append_tail, OUTPUT_TAIL_BYTES};

#[test]
fn tail_keeps_everything_under_the_cap() {
    let mut buf = b"abc".to_vec();
    append_tail(&mut buf, b"de", 10);
    assert_eq!(buf, b"abcde".to_vec());
}

#[test]
fn tail_drops_the_oldest_bytes() {
    let mut buf = b"abcdef".to_vec();
    append_tail(&mut buf, b"gh", 4);
    assert_eq!(buf, b"efgh".to_vec());
}

#[test]
fn tail_of_a_large_chunk() {
    let mut buf = b"xyz".to_vec();
    append_tail(&mut buf, b"0123456789", 3);
    assert_eq!(buf, b"789".to_vec());
    append_tail(&mut buf, b"", 3);
    assert_eq!(buf, b"789".to_vec());
    append_tail(&mut buf, b"a", 0);
    assert!(buf.is_empty());
}

#[test]
fn tail_cap_bounds_the_buffer() {
    let mut buf = Vec::new();
    for _ in 0..10 {
        append_tail(&mut buf, &[7u8; 1000], OUTPUT_TAIL_BYTES);
    }
    assert_eq!(buf.len(), OUTPUT_TAIL_BYTES);
}
