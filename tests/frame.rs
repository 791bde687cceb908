use tmkms_nitro_helper::attestation::attestation_text;
use tmkms_nitro_helper::frame::{decode_frame, encode_frame, FrameError, FrameReader, MAX_FRAME_LEN};

fn payload(n: usize) -> Vec<u8> {
    (0..n).map(|i| (i * 7 + 3) as u8).collect()
}

#[test]
fn frame_prefix_is_big_endian() {
    let f = encode_frame(&[0xAA, 0xBB, 0xCC]).unwrap();
    assert_eq!(f, vec![0x00, 0x03, 0xAA, 0xBB, 0xCC]);
    let f = encode_frame(&payload(300)).unwrap();
    assert_eq!(&f[..2], &[0x01, 0x2C]);
    assert_eq!(f.len(), 302);
}

#[test]
fn empty_payload_round_trips() {
    let f = encode_frame(&[]).unwrap();
    assert_eq!(f, vec![0, 0]);
    assert_eq!(decode_frame(&f), Ok((vec![], 2)));
}

#[test]
fn frames_round_trip_at_every_size_class() {
    for n in [1usize, 255, 256, 1000, 65534, 65535] {
        let p = payload(n);
        let f = encode_frame(&p).unwrap();
        let (back, used) = decode_frame(&f).unwrap();
        assert_eq!(back, p);
        assert_eq!(used, n + 2);
    }
}

#[test]
fn payload_over_the_ceiling_is_refused() {
    assert_eq!(MAX_FRAME_LEN, 65535);
    assert_eq!(encode_frame(&payload(65536)), Err(FrameError::TooLong));
}

#[test]
fn cut_frame_is_truncated() {
    let f = encode_frame(&payload(10)).unwrap();
    for k in 0..f.len() {
        assert_eq!(decode_frame(&f[..k]), Err(FrameError::Truncated));
    }
}

#[test]
fn decode_leaves_following_bytes() {
    let mut bytes = encode_frame(b"abc").unwrap();
    bytes.extend_from_slice(&[9, 9, 9]);
    assert_eq!(decode_frame(&bytes), Ok((b"abc".to_vec(), 5)));
}

#[test]
fn reader_hands_out_frames_in_order() {
    let mut wire = encode_frame(b"first").unwrap();
    wire.extend(encode_frame(b"").unwrap());
    wire.extend(encode_frame(b"third one").unwrap());
    let mut r = FrameReader::new();
    let mut out = Vec::new();
    for chunk in wire.chunks(3) {
        r.push(chunk);
        while let Some(p) = r.next_frame() {
            out.push(p);
        }
    }
    assert_eq!(out, vec![b"first".to_vec(), vec![], b"third one".to_vec()]);
    assert_eq!(r.finish(), Ok(()));
}

#[test]
fn reader_reports_peer_closing_mid_frame() {
    let wire = encode_frame(&payload(40)).unwrap();
    let mut r = FrameReader::new();
    r.push(&wire[..20]);
    assert_eq!(r.next_frame(), None);
    assert_eq!(r.finish(), Err(FrameError::Truncated));
    let mut header_only = FrameReader::new();
    header_only.push(&wire[..1]);
    assert_eq!(header_only.next_frame(), None);
    assert_eq!(header_only.finish(), Err(FrameError::Truncated));
}

#[test]
fn attestation_is_base64_text() {
    assert_eq!(attestation_text(b"hello"), b"aGVsbG8=".to_vec());
    assert_eq!(attestation_text(b"abc"), b"YWJj".to_vec());
    assert_eq!(attestation_text(b""), Vec::<u8>::new());
}
