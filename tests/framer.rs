use ro_client::framer::{Frame, FrameError, Framer, LengthPolicy, PacketLengthTable};

fn table() -> PacketLengthTable {
    let mut t = PacketLengthTable::new();
    t.insert(0x0081, LengthPolicy::Fixed(1));
    t.insert(0x0283, LengthPolicy::Fixed(4));
    t.insert(0x0AC4, LengthPolicy::SentinelVariable);
    t.insert(0x0B0B, LengthPolicy::Fixed(0));
    t
}

fn frame(opcode: u16, payload: &[u8]) -> Frame {
    Frame { opcode, payload: payload.to_vec() }
}

fn feed_one_by_one(bytes: &[u8]) -> Result<Vec<Frame>, FrameError> {
    let mut f = Framer::new(table());
    let mut out = Vec::new();
    for b in bytes {
        out.extend(f.push_bytes(&[*b])?);
    }
    Ok(out)
}

#[test]
fn table_lookup() {
    let t = table();
    assert_eq!(t.get(0x0081), Some(LengthPolicy::Fixed(1)));
    assert_eq!(t.get(0x0AC4), Some(LengthPolicy::SentinelVariable));
    assert_eq!(t.get(0x1234), None);
}

#[test]
fn fixed_packet_same_for_any_split() {
    let bytes = [0x83, 0x02, 0xDE, 0xAD, 0xBE, 0xEF];
    let mut whole = Framer::new(table());
    let all = whole.push_bytes(&bytes).unwrap();
    assert_eq!(all, vec![frame(0x0283, &[0xDE, 0xAD, 0xBE, 0xEF])]);
    assert_eq!(feed_one_by_one(&bytes).unwrap(), all);
    let mut split = Framer::new(table());
    let mut got = split.push_bytes(&bytes[..3]).unwrap();
    assert!(got.is_empty());
    got.extend(split.push_bytes(&bytes[3..]).unwrap());
    assert_eq!(got, all);
}

#[test]
fn fixed_packet_not_emitted_before_last_byte() {
    let mut f = Framer::new(table());
    assert_eq!(f.push_bytes(&[0x83, 0x02, 1, 2, 3]).unwrap(), vec![]);
    assert_eq!(f.wanted(), 1);
    assert_eq!(f.push_byte(4), Ok(Some(frame(0x0283, &[1, 2, 3, 4]))));
    assert_eq!(f.wanted(), 2);
}

#[test]
fn zero_length_fixed_packet_emitted_with_header() {
    let mut f = Framer::new(table());
    assert_eq!(f.push_bytes(&[0x0B, 0x0B]).unwrap(), vec![frame(0x0B0B, &[])]);
}

#[test]
fn sentinel_packet_reads_declared_total() {
    // total length 7: opcode, length field and three payload bytes
    let bytes = [0xC4, 0x0A, 0x07, 0x00, 9, 8, 7];
    let mut f = Framer::new(table());
    assert_eq!(f.push_bytes(&bytes[..6]).unwrap(), vec![]);
    assert_eq!(f.wanted(), 1);
    assert_eq!(f.push_bytes(&bytes[6..]).unwrap(), vec![frame(0x0AC4, &[9, 8, 7])]);
    assert_eq!(feed_one_by_one(&bytes).unwrap(), vec![frame(0x0AC4, &[9, 8, 7])]);
}

#[test]
fn zero_payload_sentinel_packet_emitted_at_length_field() {
    let mut f = Framer::new(table());
    assert_eq!(f.push_bytes(&[0xC4, 0x0A, 0x04]).unwrap(), vec![]);
    assert_eq!(f.push_bytes(&[0x00]).unwrap(), vec![frame(0x0AC4, &[])]);
}

#[test]
fn bytes_past_a_packet_start_the_next() {
    let bytes = [0x81, 0x00, 0x08, 0xC4, 0x0A, 0x05, 0x00, 0x42, 0x81, 0x00];
    let mut f = Framer::new(table());
    let got = f.push_bytes(&bytes).unwrap();
    assert_eq!(got, vec![frame(0x0081, &[0x08]), frame(0x0AC4, &[0x42])]);
    assert_eq!(f.push_bytes(&[0x01]).unwrap(), vec![frame(0x0081, &[0x01])]);
    assert_eq!(feed_one_by_one(&[0x81, 0x00, 0x08, 0xC4, 0x0A, 0x05, 0x00, 0x42]).unwrap(), got);
}

#[test]
fn unknown_opcode_is_fatal() {
    let mut f = Framer::new(table());
    assert_eq!(f.push_bytes(&[0x34, 0x12, 0, 0]), Err(FrameError::UnknownOpcode(0x1234)));
    assert_eq!(feed_one_by_one(&[0x81, 0x00, 0x01, 0x34, 0x12]), Err(FrameError::UnknownOpcode(0x1234)));
}

#[test]
fn stated_length_shorter_than_header_is_fatal() {
    let mut f = Framer::new(table());
    assert_eq!(f.push_bytes(&[0xC4, 0x0A, 0x03, 0x00]), Err(FrameError::LengthTooShort(3)));
}

#[test]
fn stated_length_beyond_buffer_is_fatal() {
    let mut f = Framer::new(table());
    assert_eq!(f.push_bytes(&[0xC4, 0x0A, 0x01, 0x40]), Err(FrameError::LengthTooLong(16385)));
    let mut g = Framer::new(table());
    assert_eq!(g.push_bytes(&[0xC4, 0x0A, 0x00, 0x40]).unwrap(), vec![]);
}

#[test]
fn fixed_length_beyond_buffer_is_fatal() {
    let mut t = PacketLengthTable::new();
    t.insert(0x0001, LengthPolicy::Fixed(20000));
    let mut f = Framer::new(t);
    assert_eq!(f.push_bytes(&[0x01, 0x00]), Err(FrameError::LengthTooLong(20002)));
}

#[test]
fn framer_is_between_packets_after_an_error() {
    let mut f = Framer::new(table());
    assert_eq!(f.push_bytes(&[0x81, 0x00, 0x01, 0x34, 0x12, 0x99]), Err(FrameError::UnknownOpcode(0x1234)));
    assert_eq!(f.wanted(), 2);
    assert_eq!(f.push_bytes(&[0x81, 0x00, 0x02]).unwrap(), vec![frame(0x0081, &[0x02])]);
}
