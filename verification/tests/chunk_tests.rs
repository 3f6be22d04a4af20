use bytebeam::chunks::{download_step, ChunkAssembler, DownloadStep};

#[test]
fn blocks_are_cut_to_size() {
    let mut a = ChunkAssembler::new(4);
    a.push(b"abc".to_vec());
    assert!(!a.has_full_block());
    a.push(b"defgh".to_vec());
    assert!(a.has_full_block());
    assert_eq!(a.pop_block(), b"abcd".to_vec());
    assert_eq!(a.pop_block(), b"efgh".to_vec());
    assert!(!a.has_full_block());
    assert_eq!(a.flush(), Vec::<u8>::new());
}

#[test]
fn flush_hands_out_the_remainder() {
    let mut a = ChunkAssembler::new(4);
    a.push(b"abcdef".to_vec());
    assert_eq!(a.pop_block(), b"abcd".to_vec());
    assert_eq!(a.flush(), b"ef".to_vec());
}

#[test]
fn reassembly_preserves_every_byte_in_order() {
    let mut a = ChunkAssembler::new(3);
    let mut out: Vec<u8> = Vec::new();
    for chunk in [&b"ab"[..], &b"cdefg"[..], &b""[..], &b"hij"[..]] {
        a.push(chunk.to_vec());
        while a.has_full_block() {
            out.extend_from_slice(&a.pop_block());
        }
    }
    out.extend_from_slice(&a.flush());
    assert_eq!(out, b"abcdefghij".to_vec());
}

#[test]
fn the_empty_chunk_is_the_sentinel() {
    match download_step(Some(b"data".to_vec())) {
        DownloadStep::Deliver(v) => assert_eq!(v, b"data".to_vec()),
        _ => panic!("payload must be delivered"),
    }
    assert!(matches!(
        download_step(Some(Vec::new())),
        DownloadStep::Finished
    ));
    assert!(matches!(download_step(None), DownloadStep::ChannelLost));
}
