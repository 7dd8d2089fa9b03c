use wactor::codec::Message;
use wactor::counter::{CounterInput, CounterOutput};

#[test]
fn input_round_trip() {
    for v in [CounterInput::AddOne, CounterInput::Stop] {
        let bytes = v.encode();
        assert_eq!(CounterInput::decode(&bytes), Some(v));
    }
}

#[test]
fn output_round_trip() {
    for v in [0u32, 1, 2, 255, 256, 0x12345678, u32::MAX - 1, u32::MAX] {
        let out = CounterOutput::Count(v);
        let bytes = out.encode();
        assert_eq!(bytes.len(), 4);
        assert_eq!(CounterOutput::decode(&bytes), Some(out));
    }
}

#[test]
fn output_encoding_is_little_endian() {
    let bytes = CounterOutput::Count(0x12345678).encode();
    assert_eq!(bytes, vec![0x78, 0x56, 0x34, 0x12]);
}

#[test]
fn input_encoding_is_one_tag_byte() {
    assert_eq!(CounterInput::AddOne.encode(), vec![0]);
    assert_eq!(CounterInput::Stop.encode(), vec![1]);
}

#[test]
fn decode_rejects_bytes_that_are_no_encoding() {
    assert_eq!(CounterInput::decode(&vec![]), None);
    assert_eq!(CounterInput::decode(&vec![2]), None);
    assert_eq!(CounterInput::decode(&vec![0, 0]), None);
    assert_eq!(CounterOutput::decode(&vec![]), None);
    assert_eq!(CounterOutput::decode(&vec![1, 2, 3]), None);
    assert_eq!(CounterOutput::decode(&vec![1, 2, 3, 4, 5]), None);
}
