//! Decoding of variable-length raw-input records out of an untyped byte
//! buffer, as the raw-input subsystem delivers them.
//!
//! Each record starts with a fixed-layout header declaring the record's
//! source device type and its total byte size; a mouse record carries two
//! signed 32-bit little-endian relative-motion fields at fixed offsets in
//! its payload. Records are densely packed back to back, so the decoder
//! must advance its cursor by each record's own declared size — never by a
//! fixed stride — and must skip records of other device types without
//! desynchronizing the records that follow.

use vstd::prelude::*;

use crate::event::MouseRawEvent;

verus! {

/// Byte size of the fixed record header (device type, declared size, and
/// opaque device handle / message metadata).
pub const RECORD_HEADER_BYTES: usize = 24;

/// Least declared size of a mouse record: the header plus a mouse payload
/// that reaches past both motion fields.
pub const MOUSE_RECORD_MIN_BYTES: usize = 48;

/// Device-type tag of a mouse record, first field of the header.
pub const RECORD_TYPE_MOUSE: u32 = 0;

/// Byte offset of the relative horizontal motion field within a record.
pub const MOTION_X_OFFSET: usize = 36;

/// Byte offset of the relative vertical motion field within a record.
pub const MOTION_Y_OFFSET: usize = 40;

/// Why a raw-input buffer could not be decoded. All of these mean the
/// buffer is corrupt: there is no defined recovery, so the caller must
/// treat them as fatal rather than guess at the remaining bytes.
#[derive(Clone, Copy, Debug, PartialEq, Eq, Structural)]
pub enum DecodeError {
    /// A record starts before the end of the buffer but its header does not
    /// fit in the bytes that remain.
    TruncatedHeader,
    /// A record declares a size smaller than its own header, or a mouse
    /// record declares a size too small to hold its motion fields.
    BadDeclaredSize,
    /// A record's declared size runs past the end of the buffer.
    TruncatedRecord,
}

/// The unsigned 32-bit little-endian value stored at byte offset `i`.
pub open spec fn le_u32_at(b: Seq<u8>, i: int) -> u32 {
    (b[i] + b[i + 1] * 0x100 + b[i + 2] * 0x1_0000 + b[i + 3] * 0x100_0000) as u32
}

/// The signed 32-bit little-endian value stored at byte offset `i`.
pub open spec fn le_i32_at(b: Seq<u8>, i: int) -> i32 {
    le_u32_at(b, i) as i32
}

/// The motion event carried by the mouse record that starts at offset `i`.
pub open spec fn record_event(b: Seq<u8>, i: int) -> MouseRawEvent {
    MouseRawEvent {
        dx: le_i32_at(b, i + MOTION_X_OFFSET as int),
        dy: le_i32_at(b, i + MOTION_Y_OFFSET as int),
    }
}

/// What decoding a packed raw-input buffer yields: the motion events of its
/// mouse records in buffer order, or the error raised by the first
/// malformed record. The empty buffer holds no records.
pub open spec fn decode_records(b: Seq<u8>) -> Result<Seq<MouseRawEvent>, DecodeError>
    decreases b.len(),
{
    if b.len() == 0 {
        Ok(Seq::empty())
    } else if b.len() < RECORD_HEADER_BYTES as int {
        Err(DecodeError::TruncatedHeader)
    } else {
        let ty = le_u32_at(b, 0);
        let size = le_u32_at(b, 4) as int;
        if size < RECORD_HEADER_BYTES as int || (ty == RECORD_TYPE_MOUSE && size
            < MOUSE_RECORD_MIN_BYTES as int) {
            Err(DecodeError::BadDeclaredSize)
        } else if size > b.len() {
            Err(DecodeError::TruncatedRecord)
        } else {
            match decode_records(b.skip(size)) {
                Ok(rest) => Ok(
                    if ty == RECORD_TYPE_MOUSE {
                        seq![record_event(b, 0)] + rest
                    } else {
                        rest
                    },
                ),
                Err(e) => Err(e),
            }
        }
    }
}

/// The event of a buffer that holds exactly one raw-input record, as the
/// message-driven capture path receives them: `Some` exactly when the
/// record is a well-formed mouse record whose declared size matches the
/// buffer.
pub open spec fn single_record_event(b: Seq<u8>) -> Option<MouseRawEvent> {
    if b.len() >= MOUSE_RECORD_MIN_BYTES as int && le_u32_at(b, 0) == RECORD_TYPE_MOUSE
        && le_u32_at(b, 4) == b.len() {
        Some(record_event(b, 0))
    } else {
        None
    }
}

fn read_u32_le(buf: &Vec<u8>, i: usize) -> (r: u32)
    requires
        i + 4 <= buf.len(),
    ensures
        r == le_u32_at(buf@, i as int),
{
    let b0 = buf[i] as u32;
    let b1 = buf[i + 1] as u32;
    let b2 = buf[i + 2] as u32;
    let b3 = buf[i + 3] as u32;
    b0 + b1 * 0x100 + b2 * 0x1_0000 + b3 * 0x100_0000
}

fn read_i32_le(buf: &Vec<u8>, i: usize) -> (r: i32)
    requires
        i + 4 <= buf.len(),
    ensures
        r == le_i32_at(buf@, i as int),
{
    #[verifier::truncate]
    let r = read_u32_le(buf, i) as i32;
    r
}

proof fn lemma_le_u32_at_skip(b: Seq<u8>, c: int, i: int)
    requires
        0 <= c <= b.len(),
        0 <= i,
        c + i + 4 <= b.len(),
    ensures
        le_u32_at(b.skip(c), i) == le_u32_at(b, c + i),
{
    assert(b.skip(c)[i] == b[c + i]);
    assert(b.skip(c)[i + 1] == b[c + i + 1]);
    assert(b.skip(c)[i + 2] == b[c + i + 2]);
    assert(b.skip(c)[i + 3] == b[c + i + 3]);
}

/// Decode a packed raw-input buffer, bounds-checked throughout: exactly the
/// mouse events of `decode_records`, in order, or the error of the first
/// malformed record.
pub fn decode_raw_input_buffer(buf: &Vec<u8>) -> (r: Result<Vec<MouseRawEvent>, DecodeError>)
    ensures
        r is Ok <==> decode_records(buf@) is Ok,
        r is Ok ==> r->Ok_0@ == decode_records(buf@)->Ok_0,
        r is Err ==> r->Err_0 == decode_records(buf@)->Err_0,
{
    let n = buf.len();
    let mut events: Vec<MouseRawEvent> = Vec::new();
    let mut cursor: usize = 0;
    proof {
        assert(buf@.skip(0) =~= buf@);
        match decode_records(buf@) {
            Ok(rest) => {
                assert(Seq::<MouseRawEvent>::empty() + rest =~= rest);
            },
            Err(_) => {},
        }
    }
    while cursor < n
        invariant
            cursor <= n,
            n == buf@.len(),
            decode_records(buf@) == (match decode_records(buf@.skip(cursor as int)) {
                Ok(rest) => Ok::<Seq<MouseRawEvent>, DecodeError>(events@ + rest),
                Err(e) => Err::<Seq<MouseRawEvent>, DecodeError>(e),
            }),
        decreases n - cursor,
    {
        let ghost suffix = buf@.skip(cursor as int);
        let ghost evs0 = events@;
        let remaining = n - cursor;
        if remaining < RECORD_HEADER_BYTES {
            return Err(DecodeError::TruncatedHeader);
        }
        let ty = read_u32_le(buf, cursor);
        let declared = read_u32_le(buf, cursor + 4);
        proof {
            lemma_le_u32_at_skip(buf@, cursor as int, 0);
            lemma_le_u32_at_skip(buf@, cursor as int, 4);
        }
        let size = declared as usize;
        if size < RECORD_HEADER_BYTES || (ty == RECORD_TYPE_MOUSE && size < MOUSE_RECORD_MIN_BYTES) {
            return Err(DecodeError::BadDeclaredSize);
        }
        if size > remaining {
            return Err(DecodeError::TruncatedRecord);
        }
        let ghost head = if ty == RECORD_TYPE_MOUSE {
            seq![record_event(suffix, 0)]
        } else {
            Seq::<MouseRawEvent>::empty()
        };
        if ty == RECORD_TYPE_MOUSE {
            let dx = read_i32_le(buf, cursor + MOTION_X_OFFSET);
            let dy = read_i32_le(buf, cursor + MOTION_Y_OFFSET);
            proof {
                lemma_le_u32_at_skip(buf@, cursor as int, MOTION_X_OFFSET as int);
                lemma_le_u32_at_skip(buf@, cursor as int, MOTION_Y_OFFSET as int);
            }
            events.push(MouseRawEvent { dx, dy });
        }
        proof {
            assert(events@ =~= evs0 + head);
            assert(suffix.skip(size as int) =~= buf@.skip(cursor + size));
            match decode_records(suffix.skip(size as int)) {
                Ok(rest) => {
                    assert(decode_records(suffix) == Ok::<Seq<MouseRawEvent>, DecodeError>(
                        head + rest,
                    ));
                    assert(evs0 + (head + rest) =~= (evs0 + head) + rest);
                },
                Err(e) => {
                    assert(decode_records(suffix) == Err::<Seq<MouseRawEvent>, DecodeError>(e));
                },
            }
        }
        cursor = cursor + size;
    }
    proof {
        assert(buf@.skip(n as int) =~= Seq::<u8>::empty());
        assert(events@ + Seq::<MouseRawEvent>::empty() =~= events@);
    }
    Ok(events)
}

/// Decode the bytes of exactly one raw-input record, as the message-driven
/// capture path fetches them: the record's motion event when it is a
/// well-formed mouse record whose declared size matches the buffer, and
/// `None` for any other device type or malformed image.
pub fn decode_single_record(buf: &Vec<u8>) -> (r: Option<MouseRawEvent>)
    ensures
        r == single_record_event(buf@),
{
    let n = buf.len();
    if n < MOUSE_RECORD_MIN_BYTES {
        return None;
    }
    let ty = read_u32_le(buf, 0);
    if ty != RECORD_TYPE_MOUSE {
        return None;
    }
    let declared = read_u32_le(buf, 4);
    if declared as usize != n {
        return None;
    }
    let dx = read_i32_le(buf, MOTION_X_OFFSET);
    let dy = read_i32_le(buf, MOTION_Y_OFFSET);
    Some(MouseRawEvent { dx, dy })
}

/// A buffer accepted as a single mouse record is also what the batch
/// decoder accepts: it decodes to exactly that one event. The two capture
/// strategies therefore agree on every record.
pub proof fn lemma_single_record_decodes(b: Seq<u8>)
    requires
        single_record_event(b) is Some,
    ensures
        decode_records(b) == Ok::<Seq<MouseRawEvent>, DecodeError>(
            seq![single_record_event(b)->0],
        ),
{
    assert(b.skip(b.len() as int) =~= Seq::<u8>::empty());
    assert(decode_records(Seq::<u8>::empty()) == Ok::<Seq<MouseRawEvent>, DecodeError>(
        Seq::empty(),
    ));
    assert(seq![record_event(b, 0)] + Seq::<MouseRawEvent>::empty() =~= seq![record_event(b, 0)]);
}

/// A well-formed record image: at least a header, a declared size that
/// matches its length, and room for the motion fields when it is a mouse
/// record.
pub open spec fn chunk_wf(c: Seq<u8>) -> bool {
    &&& c.len() >= RECORD_HEADER_BYTES as int
    &&& le_u32_at(c, 4) == c.len()
    &&& (le_u32_at(c, 0) == RECORD_TYPE_MOUSE ==> c.len() >= MOUSE_RECORD_MIN_BYTES as int)
}

/// Whether a record image carries the mouse device type.
pub open spec fn chunk_is_mouse(c: Seq<u8>) -> bool {
    le_u32_at(c, 0) == RECORD_TYPE_MOUSE
}

/// The motion events of a sequence of record images, in that order, with
/// records of other device types left out.
pub open spec fn chunks_events(chunks: Seq<Seq<u8>>) -> Seq<MouseRawEvent>
    decreases chunks.len(),
{
    if chunks.len() == 0 {
        Seq::empty()
    } else {
        (if chunk_is_mouse(chunks[0]) {
            seq![record_event(chunks[0], 0)]
        } else {
            Seq::<MouseRawEvent>::empty()
        }) + chunks_events(chunks.drop_first())
    }
}

proof fn lemma_le_u32_at_prefix(a: Seq<u8>, b: Seq<u8>, i: int)
    requires
        0 <= i,
        i + 4 <= a.len(),
    ensures
        le_u32_at(a + b, i) == le_u32_at(a, i),
{
    assert((a + b)[i] == a[i]);
    assert((a + b)[i + 1] == a[i + 1]);
    assert((a + b)[i + 2] == a[i + 2]);
    assert((a + b)[i + 3] == a[i + 3]);
}

/// Ordering and variable-length decoding, stated once for every packed
/// buffer: when a buffer is exactly a sequence of well-formed records laid
/// back to back — whatever their individual declared sizes — decoding
/// succeeds and yields the motion events of the mouse records in exactly
/// the order the records stand in the buffer; records of other device
/// types are skipped without desynchronizing the records that follow.
pub proof fn lemma_decode_packed_chunks(chunks: Seq<Seq<u8>>)
    requires
        forall|k: int| 0 <= k < chunks.len() ==> chunk_wf(#[trigger] chunks[k]),
    ensures
        decode_records(chunks.flatten()) == Ok::<Seq<MouseRawEvent>, DecodeError>(
            chunks_events(chunks),
        ),
    decreases chunks.len(),
{
    if chunks.len() == 0 {
        assert(chunks.flatten() =~= Seq::<u8>::empty());
    } else {
        let c = chunks[0];
        let rest = chunks.drop_first();
        let tail = rest.flatten();
        assert(chunk_wf(c));
        assert(forall|k: int| 0 <= k < rest.len() ==> chunk_wf(#[trigger] rest[k])) by {
            assert(forall|k: int| 0 <= k < rest.len() ==> rest[k] == chunks[k + 1]);
        }
        lemma_decode_packed_chunks(rest);
        let b = chunks.flatten();
        assert(b == c + tail);
        lemma_le_u32_at_prefix(c, tail, 0);
        lemma_le_u32_at_prefix(c, tail, 4);
        let size = le_u32_at(b, 4) as int;
        assert(size == c.len());
        assert(b.skip(size) =~= tail);
        if chunk_is_mouse(c) {
            lemma_le_u32_at_prefix(c, tail, MOTION_X_OFFSET as int);
            lemma_le_u32_at_prefix(c, tail, MOTION_Y_OFFSET as int);
            assert(record_event(b, 0) == record_event(c, 0));
        }
        assert(decode_records(b) == Ok::<Seq<MouseRawEvent>, DecodeError>(chunks_events(chunks)));
    }
}

fn zero_pad(out: &mut Vec<u8>, upto: usize)
    requires
        old(out)@.len() <= upto,
    ensures
        final(out)@.len() == upto,
        forall|j: int| 0 <= j < old(out)@.len() ==> final(out)@[j] == old(out)@[j],
        forall|j: int| old(out)@.len() <= j < upto ==> final(out)@[j] == 0u8,
{
    while out.len() < upto
        invariant
            old(out)@.len() <= out@.len() <= upto,
            forall|j: int| 0 <= j < old(out)@.len() ==> out@[j] == old(out)@[j],
            forall|j: int| old(out)@.len() <= j < out@.len() ==> out@[j] == 0u8,
        decreases upto - out@.len(),
    {
        out.push(0u8);
    }
}

fn push_u32_le(out: &mut Vec<u8>, v: u32)
    ensures
        final(out)@.len() == old(out)@.len() + 4,
        forall|j: int| 0 <= j < old(out)@.len() ==> final(out)@[j] == old(out)@[j],
        le_u32_at(final(out)@, old(out)@.len() as int) == v,
{
    let b0 = (v % 0x100) as u8;
    let b1 = ((v / 0x100) % 0x100) as u8;
    let b2 = ((v / 0x1_0000) % 0x100) as u8;
    let b3 = ((v / 0x100_0000) % 0x100) as u8;
    out.push(b0);
    out.push(b1);
    out.push(b2);
    out.push(b3);
    proof {
        let l = old(out)@.len() as int;
        assert(out@[l] == b0 && out@[l + 1] == b1 && out@[l + 2] == b2 && out@[l + 3] == b3);
        assert((v % 0x100) + ((v / 0x100) % 0x100) * 0x100 + ((v / 0x1_0000) % 0x100) * 0x1_0000 + (
        (v / 0x100_0000) % 0x100) * 0x100_0000 == v) by (bit_vector);
    }
}

fn push_i32_le(out: &mut Vec<u8>, v: i32)
    ensures
        final(out)@.len() == old(out)@.len() + 4,
        forall|j: int| 0 <= j < old(out)@.len() ==> final(out)@[j] == old(out)@[j],
        le_i32_at(final(out)@, old(out)@.len() as int) == v,
{
    #[verifier::truncate]
    let u = v as u32;
    push_u32_le(out, u);
    proof {
        assert((v as u32) as i32 == v) by (bit_vector);
    }
}

/// Build the image of one mouse record of the given declared size carrying
/// the given motion deltas: a synthetic record laid out exactly as the
/// raw-input subsystem would deliver it.
pub fn encode_mouse_record(dx: i32, dy: i32, declared_size: u32) -> (r: Vec<u8>)
    requires
        MOUSE_RECORD_MIN_BYTES <= declared_size,
    ensures
        r@.len() == declared_size,
        chunk_wf(r@),
        chunk_is_mouse(r@),
        record_event(r@, 0) == (MouseRawEvent { dx, dy }),
{
    let mut r: Vec<u8> = Vec::new();
    push_u32_le(&mut r, RECORD_TYPE_MOUSE);
    push_u32_le(&mut r, declared_size);
    zero_pad(&mut r, MOTION_X_OFFSET);
    push_i32_le(&mut r, dx);
    push_i32_le(&mut r, dy);
    zero_pad(&mut r, declared_size as usize);
    r
}

/// Build the image of one record of a non-mouse device type: only its
/// header matters to the decoder, which must skip it by its declared size.
pub fn encode_foreign_record(device_type: u32, declared_size: u32) -> (r: Vec<u8>)
    requires
        device_type != RECORD_TYPE_MOUSE,
        RECORD_HEADER_BYTES <= declared_size,
    ensures
        r@.len() == declared_size,
        chunk_wf(r@),
        !chunk_is_mouse(r@),
{
    let mut r: Vec<u8> = Vec::new();
    push_u32_le(&mut r, device_type);
    push_u32_le(&mut r, declared_size);
    zero_pad(&mut r, declared_size as usize);
    r
}

} // verus!
