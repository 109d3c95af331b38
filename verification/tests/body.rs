use rtcore::body::to_bytes;

#[test]
fn to_bytes_no_chunks_is_empty() {
    let out = to_bytes(Vec::new());
    assert_eq!(out, bytes::Bytes::new());
    assert!(out.is_empty());
}

#[test]
fn to_bytes_single_chunk_is_that_chunk() {
    let out = to_bytes(vec![b"hello".to_vec()]);
    assert_eq!(out, bytes::Bytes::from_static(b"hello"));
}

#[test]
fn to_bytes_concatenates_in_order() {
    let out = to_bytes(vec![b"hello".to_vec(), b" ".to_vec(), b"world".to_vec()]);
    assert_eq!(out, bytes::Bytes::from_static(b"hello world"));
}

#[test]
fn to_bytes_many_chunks() {
    let mut chunks = Vec::new();
    let mut expected = Vec::new();
    for i in 0..1000u32 {
        let chunk = vec![(i % 256) as u8, ((i / 256) % 256) as u8];
        expected.extend_from_slice(&chunk);
        chunks.push(chunk);
    }
    let out = to_bytes(chunks);
    assert_eq!(out, bytes::Bytes::from(expected));
}

#[test]
fn to_bytes_keeps_empty_chunks_transparent() {
    let out = to_bytes(vec![Vec::new(), b"a".to_vec(), Vec::new(), b"b".to_vec()]);
    assert_eq!(out, bytes::Bytes::from_static(b"ab"));
}
