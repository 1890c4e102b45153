use scupt_net::framed_codec::FramedCodec;
use scupt_net::framed_header::{FramedHdr, FramedHdrRef, HEADER_SIZE};

#[test]
fn header_size_is_four() {
    assert_eq!(HEADER_SIZE, 4);
    assert_eq!(FramedHdr::size(), 4);
    assert_eq!(FramedHdrRef::size(), 4);
}

#[test]
fn new_header_is_zero() {
    let h = FramedHdr::new();
    assert_eq!(h.buf(), &[0u8, 0, 0, 0]);
}

#[test]
fn header_is_big_endian() {
    let mut h = FramedHdr::new();
    h.set_size(0x0102_0304);
    assert_eq!(h.buf(), &[1u8, 2, 3, 4]);
    h.set_size(258);
    assert_eq!(h.buf(), &[0u8, 0, 1, 2]);
}

#[test]
fn header_set_then_get() {
    for v in [0u32, 1, 255, 256, 65535, 0x00ab_cdef, u32::MAX] {
        let mut h = FramedHdr::new();
        h.set_size(v);
        let r = FramedHdrRef::new(h.buf());
        assert_eq!(r.get_size(), v);
    }
}

#[test]
fn header_ref_reads_bytes() {
    let bytes = [0u8, 0, 2, 0];
    assert_eq!(FramedHdrRef::new(&bytes).get_size(), 512);
}

#[test]
fn encode_writes_header_then_payload() {
    let mut codec = FramedCodec::new();
    let mut buf = vec![9u8];
    codec.encode(b"hello".to_vec(), &mut buf);
    assert_eq!(buf, vec![9u8, 0, 0, 0, 5, b'h', b'e', b'l', b'l', b'o']);
}

#[test]
fn decode_what_was_encoded() {
    let mut codec = FramedCodec::new();
    let mut buf = Vec::new();
    codec.encode(b"hello".to_vec(), &mut buf);
    let m = codec.decode(&mut buf);
    assert_eq!(m, Some(b"hello".to_vec()));
    assert!(buf.is_empty());
}

#[test]
fn decode_frames_in_order() {
    let mut codec = FramedCodec::new();
    let mut buf = Vec::new();
    codec.encode(vec![1u8, 2, 3], &mut buf);
    codec.encode(vec![4u8], &mut buf);
    codec.encode(vec![5u8, 6], &mut buf);
    assert_eq!(codec.decode(&mut buf), Some(vec![1u8, 2, 3]));
    assert_eq!(codec.decode(&mut buf), Some(vec![4u8]));
    assert_eq!(codec.decode(&mut buf), Some(vec![5u8, 6]));
    assert_eq!(codec.decode(&mut buf), None);
    assert!(buf.is_empty());
}

#[test]
fn decode_waits_for_a_complete_frame() {
    let mut codec = FramedCodec::new();
    let mut full = Vec::new();
    codec.encode(vec![7u8; 10], &mut full);
    for k in 0..full.len() {
        let mut part = full[..k].to_vec();
        assert_eq!(codec.decode(&mut part), None);
        assert_eq!(part, full[..k].to_vec());
    }
    let mut all = full.clone();
    assert_eq!(codec.decode(&mut all), Some(vec![7u8; 10]));
}

#[test]
fn decode_keeps_the_rest() {
    let mut codec = FramedCodec::new();
    let mut buf = vec![0u8, 0, 0, 2, 10, 11, 12, 13];
    assert_eq!(codec.decode(&mut buf), Some(vec![10u8, 11]));
    assert_eq!(buf, vec![12u8, 13]);
}

#[test]
fn empty_frame_is_a_complete_frame() {
    let mut codec = FramedCodec::new();
    let mut buf = Vec::new();
    codec.encode(Vec::new(), &mut buf);
    assert_eq!(buf, vec![0u8, 0, 0, 0]);
    assert_eq!(codec.decode(&mut buf), Some(Vec::new()));
    assert!(buf.is_empty());
    let mut buf = vec![0u8, 0, 0, 0, 42];
    assert_eq!(codec.decode(&mut buf), Some(Vec::new()));
    assert_eq!(buf, vec![42u8]);
}

#[test]
fn stream_with_empty_frames_decodes_in_order() {
    let mut codec = FramedCodec::new();
    let mut buf = Vec::new();
    codec.encode(Vec::new(), &mut buf);
    codec.encode(vec![1u8], &mut buf);
    codec.encode(Vec::new(), &mut buf);
    assert_eq!(codec.decode(&mut buf), Some(Vec::new()));
    assert_eq!(codec.decode(&mut buf), Some(vec![1u8]));
    assert_eq!(codec.decode(&mut buf), Some(Vec::new()));
    assert_eq!(codec.decode(&mut buf), None);
    assert!(buf.is_empty());
}

#[test]
fn decode_of_short_buffer_is_none() {
    let mut codec = FramedCodec::new();
    let mut buf = vec![0u8, 0, 0];
    assert_eq!(codec.decode(&mut buf), None);
    assert_eq!(buf, vec![0u8, 0, 0]);
}
