use sensor_net::{encode_frame, FrameDecoder, MAX_PAYLOAD};

fn decode_all(bytes: &[u8]) -> (Vec<Vec<u8>>, bool) {
    let mut dec = FrameDecoder::new();
    let mut frames = Vec::new();
    for &b in bytes {
        if let Some(f) = dec.push(b) {
            frames.push(f);
        }
    }
    (frames, dec.is_collecting())
}

#[test]
fn encode_frame_prefixes_length() {
    assert_eq!(encode_frame(&[1, 2, 3]), vec![3, 1, 2, 3]);
    assert_eq!(encode_frame(&[]), vec![0]);
}

#[test]
fn encode_frame_largest_payload() {
    let payload = vec![0xAB; MAX_PAYLOAD];
    let frame = encode_frame(&payload);
    assert_eq!(frame.len(), 256);
    assert_eq!(frame[0], 255);
    assert_eq!(&frame[1..], &payload[..]);
}

#[test]
fn frame_roundtrip() {
    let payload: Vec<u8> = (0..14).collect();
    let (frames, collecting) = decode_all(&encode_frame(&payload));
    assert_eq!(frames, vec![payload]);
    assert!(!collecting);
}

#[test]
fn empty_frame_roundtrip() {
    let (frames, collecting) = decode_all(&[0]);
    assert_eq!(frames, vec![Vec::<u8>::new()]);
    assert!(!collecting);
}

#[test]
fn stream_of_frames() {
    let mut stream = encode_frame(&[9, 8, 7]);
    stream.extend(encode_frame(&[]));
    stream.extend(encode_frame(&[0, 0]));
    let (frames, collecting) = decode_all(&stream);
    assert_eq!(frames, vec![vec![9, 8, 7], vec![], vec![0, 0]]);
    assert!(!collecting);
}

#[test]
fn partial_frame_is_held() {
    let mut dec = FrameDecoder::new();
    assert!(!dec.is_collecting());
    assert_eq!(dec.push(3), None);
    assert!(dec.is_collecting());
    assert_eq!(dec.push(1), None);
    assert_eq!(dec.push(2), None);
    assert_eq!(dec.push(3), Some(vec![1, 2, 3]));
    assert!(!dec.is_collecting());
}
