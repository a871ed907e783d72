use write_gate::bytes::{u32_from_be_bytes, u32_to_be_bytes};
use write_gate::framing::{drain, encode_raw_length, frames, message_length, Draining, Received};

#[test]
fn a_length_goes_before_its_body() {
    assert_eq!(encode_raw_length(b"API"), b"\x00\x00\x00\x03API");
    assert_eq!(encode_raw_length(b""), b"\x00\x00\x00\x00");
    assert_eq!(encode_raw_length(&[7; 300])[..4], [0, 0, 1, 44]);
    assert_eq!(message_length(b"\x00\x00\x01\x2c"), 300);
    assert_eq!(message_length(b"\xff\xff\xff\xff"), 0xffff_ffff);
}

#[test]
fn be_bytes_are_read_back() {
    for value in [0, 1, 255, 256, 0x0102_0304, u32::MAX] {
        assert_eq!(u32_to_be_bytes(value), value.to_be_bytes());
        assert_eq!(u32_from_be_bytes(&value.to_be_bytes()), value);
    }
}

#[test]
fn framed_bodies_are_read_back() {
    let bodies: Vec<Vec<u8>> = vec![b"one".to_vec(), Vec::new(), vec![0; 1000], b"\x00\x00\x00\x01".to_vec()];
    let mut stream = Vec::new();
    for body in &bodies {
        stream.extend(encode_raw_length(body));
    }
    assert_eq!(frames(&stream), bodies);
    // A frame cut off behind them is not read, wherever it is cut.
    let cut = encode_raw_length(b"cut off");
    for sent in 0..cut.len() {
        let mut all = stream.clone();
        all.extend_from_slice(&cut[..sent]);
        assert_eq!(frames(&all), bodies);
    }
    assert_eq!(frames(&cut), [b"cut off"]);
    assert!(frames(b"").is_empty());
    assert!(frames(b"\xff\xff\xff\xffabc").is_empty());
}

#[test]
fn everything_is_received_until_the_end() {
    let mut received = Vec::new();
    assert_eq!(drain(&mut received, &Received::Bytes(b"bef".to_vec())), Draining::More);
    assert_eq!(drain(&mut received, &Received::Bytes(b"ore".to_vec())), Draining::More);
    assert_eq!(drain(&mut received, &Received::TimedOut), Draining::Late);
    assert_eq!(drain(&mut received, &Received::Failed), Draining::Ended);
    assert_eq!(drain(&mut received, &Received::Bytes(Vec::new())), Draining::Ended);
    assert_eq!(received, b"before");
}
