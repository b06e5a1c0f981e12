use mousesniff::decode::decode_raw_input_buffer;
use mousesniff::decode::decode_single_record;
use mousesniff::decode::encode_foreign_record;
use mousesniff::decode::encode_mouse_record;
use mousesniff::decode::DecodeError;
use mousesniff::MouseRawEvent;

fn push_u32(buf: &mut Vec<u8>, v: u32) {
    buf.push((v % 0x100) as u8);
    buf.push(((v / 0x100) % 0x100) as u8);
    buf.push(((v / 0x1_0000) % 0x100) as u8);
    buf.push(((v / 0x100_0000) % 0x100) as u8);
}

#[test]
fn empty_buffer_holds_no_records() {
    let buf: Vec<u8> = Vec::new();
    let events = decode_raw_input_buffer(&buf).unwrap();
    assert!(events.is_empty());
}

#[test]
fn single_mouse_record_round_trips() {
    let buf = encode_mouse_record(17, -4, 48);
    let events = decode_raw_input_buffer(&buf).unwrap();
    assert_eq!(events.len(), 1);
    assert_eq!(events[0], MouseRawEvent { dx: 17, dy: -4 });
}

#[test]
fn variable_length_records_advance_by_declared_size() {
    // Three mouse records of differing declared sizes, back to back: the
    // cursor must advance by each record's own size, never a fixed stride.
    let mut buf = encode_mouse_record(1, 2, 48);
    buf.extend(encode_mouse_record(3, 4, 64));
    buf.extend(encode_mouse_record(5, 6, 56));
    let events = decode_raw_input_buffer(&buf).unwrap();
    assert_eq!(
        events,
        vec![
            MouseRawEvent { dx: 1, dy: 2 },
            MouseRawEvent { dx: 3, dy: 4 },
            MouseRawEvent { dx: 5, dy: 6 },
        ]
    );
}

#[test]
fn foreign_record_is_skipped_without_desync() {
    // A non-mouse record between two mouse records is skipped, not
    // yielded, and the records after it still decode correctly.
    let mut buf = encode_mouse_record(7, -8, 48);
    buf.extend(encode_foreign_record(1, 40));
    buf.extend(encode_mouse_record(-9, 10, 48));
    let events = decode_raw_input_buffer(&buf).unwrap();
    assert_eq!(
        events,
        vec![MouseRawEvent { dx: 7, dy: -8 }, MouseRawEvent { dx: -9, dy: 10 }]
    );
}

#[test]
fn ordering_is_preserved_across_many_records() {
    let deltas = [(5, -2), (0, 10), (-3, -3), (i32::MAX, i32::MIN), (-1, 1)];
    let mut buf: Vec<u8> = Vec::new();
    for (i, (dx, dy)) in deltas.iter().enumerate() {
        buf.extend(encode_mouse_record(*dx, *dy, 48 + 8 * (i as u32 % 3)));
    }
    let events = decode_raw_input_buffer(&buf).unwrap();
    assert_eq!(events.len(), deltas.len());
    for (i, (dx, dy)) in deltas.iter().enumerate() {
        assert_eq!(events[i], MouseRawEvent { dx: *dx, dy: *dy });
    }
}

#[test]
fn truncated_header_is_an_error() {
    let buf: Vec<u8> = vec![0; 10];
    assert_eq!(decode_raw_input_buffer(&buf), Err(DecodeError::TruncatedHeader));
}

#[test]
fn undersized_declared_size_is_an_error() {
    // A mouse record declaring 32 bytes cannot hold its motion fields.
    let mut buf: Vec<u8> = Vec::new();
    push_u32(&mut buf, 0); // mouse device type
    push_u32(&mut buf, 32); // declared size, too small for a mouse record
    buf.resize(32, 0);
    assert_eq!(decode_raw_input_buffer(&buf), Err(DecodeError::BadDeclaredSize));
}

#[test]
fn declared_size_below_header_is_an_error() {
    let mut buf: Vec<u8> = Vec::new();
    push_u32(&mut buf, 3); // some non-mouse device type
    push_u32(&mut buf, 8); // smaller than the header itself
    buf.resize(24, 0);
    assert_eq!(decode_raw_input_buffer(&buf), Err(DecodeError::BadDeclaredSize));
}

#[test]
fn record_overrunning_buffer_is_an_error() {
    // A mouse record declaring 64 bytes in a 48-byte buffer.
    let mut buf: Vec<u8> = Vec::new();
    push_u32(&mut buf, 0);
    push_u32(&mut buf, 64);
    buf.resize(48, 0);
    assert_eq!(decode_raw_input_buffer(&buf), Err(DecodeError::TruncatedRecord));
}

#[test]
fn error_comes_from_first_malformed_record() {
    // A good record followed by a truncated one: the good one is not
    // enough, the buffer as a whole is rejected with the later error.
    let mut buf = encode_mouse_record(1, 1, 48);
    buf.extend([0u8; 12]);
    assert_eq!(decode_raw_input_buffer(&buf), Err(DecodeError::TruncatedHeader));
}

#[test]
fn single_record_decoder_accepts_exact_mouse_record() {
    let buf = encode_mouse_record(-5, 6, 48);
    assert_eq!(decode_single_record(&buf), Some(MouseRawEvent { dx: -5, dy: 6 }));
}

#[test]
fn single_record_decoder_rejects_foreign_and_malformed() {
    let foreign = encode_foreign_record(2, 48);
    assert_eq!(decode_single_record(&foreign), None);
    // Declared size disagreeing with the buffer length.
    let mut buf = encode_mouse_record(1, 2, 56);
    buf.truncate(48);
    assert_eq!(decode_single_record(&buf), None);
    let short: Vec<u8> = vec![0; 20];
    assert_eq!(decode_single_record(&short), None);
}
