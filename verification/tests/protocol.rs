//! The data-transfer protocols of a stream, driven against raw outcomes a
//! fake native host would hand back: the zero-copy write cycle, the
//! peek/discard read cycle, and the connect scenarios.

use pulse_binding::error;
use pulse_binding::sample::{SampleFormat, SampleSpec};
use pulse_binding::stream::{BufferResult, PeekResult, SeekMode, Stream};
use pulse_binding::context::{Context, NOFLAGS};

fn spec_s16_stereo() -> SampleSpec {
    SampleSpec { format: SampleFormat::S16le, rate: 44100, channels: 2 }
}

#[test]
fn begin_write_translates_native_reply() {
    let mut s = Stream::new(1).expect("non-null");
    // a failure code surfaces unchanged
    assert_eq!(s.begin_write(-3, 0, 0), Err(-3));
    // a null pointer becomes the empty buffer result
    assert_eq!(s.begin_write(0, 0, 0), Ok(BufferResult::Null));
    // a live pointer opens a reservation
    assert_eq!(s.begin_write(0, 4096, 256), Ok(BufferResult::Buffer(4096, 256)));
    assert_eq!(s.reservation(), Some((4096, 256)));
}

#[test]
fn begin_write_twice_returns_identical_pair() {
    let mut s = Stream::new(1).expect("non-null");
    let first = s.begin_write(0, 4096, 256).expect("native reply was a buffer");
    // a second call without an intervening write or cancel answers the
    // identical pair, whatever the native library would reply now
    let second = s.begin_write(0, 9999, 8).expect("idempotent");
    assert_eq!(first, second);
    let third = s.begin_write(-1, 0, 0).expect("idempotent");
    assert_eq!(first, third);
    assert_eq!(s.reservation(), Some((4096, 256)));
}

#[test]
fn write_retires_the_reservation() {
    let mut s = Stream::new(1).expect("non-null");
    let spc = spec_s16_stereo();
    s.begin_write(0, 4096, 256).expect("buffer");
    assert!(s.check_write(256, &spc, 0, SeekMode::Relative));
    assert_eq!(s.write(256, &spc, 0, SeekMode::Relative, 0), Ok(()));
    assert_eq!(s.reservation(), None);
    // the next begin-write consults the native reply afresh
    assert_eq!(s.begin_write(0, 8192, 128), Ok(BufferResult::Buffer(8192, 128)));
}

#[test]
fn cancel_write_retires_the_reservation() {
    let mut s = Stream::new(1).expect("non-null");
    s.begin_write(0, 4096, 256).expect("buffer");
    assert_eq!(s.cancel_write(0), Ok(()));
    assert_eq!(s.reservation(), None);
}

#[test]
fn misaligned_write_is_rejected_before_the_native_call() {
    let s = Stream::new(1).expect("non-null");
    let spc = spec_s16_stereo();
    // frame size is 4 bytes; a length not a multiple of it violates the
    // write precondition, caught before any native call is made
    assert!(!s.check_write(6, &spc, 0, SeekMode::Relative));
    assert!(s.check_write(8, &spc, 0, SeekMode::Relative));
    assert!(s.check_write(0, &spc, 0, SeekMode::Relative));
}

#[test]
fn write_must_stay_within_the_reservation() {
    let mut s = Stream::new(1).expect("non-null");
    let spc = spec_s16_stereo();
    s.begin_write(0, 4096, 16).expect("buffer");
    assert!(s.check_write(16, &spc, 0, SeekMode::Relative));
    assert!(!s.check_write(20, &spc, 0, SeekMode::Relative));
}

#[test]
fn upload_stream_only_writes_relative_at_offset_zero() {
    let mut s = Stream::new(1).expect("non-null");
    assert!(!s.is_upload());
    assert_eq!(s.connect_upload(0), Ok(()));
    assert!(s.is_upload());
    let spc = spec_s16_stereo();
    assert!(s.check_write(8, &spc, 0, SeekMode::Relative));
    assert!(!s.check_write(8, &spc, 4, SeekMode::Relative));
    assert!(!s.check_write(8, &spc, 0, SeekMode::Absolute));
}

#[test]
fn failed_upload_connection_marks_nothing() {
    let mut s = Stream::new(1).expect("non-null");
    assert_eq!(s.connect_upload(-6), Err(-6));
    assert!(!s.is_upload());
}

#[test]
fn begin_write_request_encodes_automatic_size() {
    assert_eq!(Stream::begin_write_request(Some(512)), 512);
    assert_eq!(Stream::begin_write_request(None), usize::MAX);
}

#[test]
fn peek_empty_enables_no_discard() {
    let mut s = Stream::new(1).expect("non-null");
    // null pointer, zero bytes: the buffer is empty
    assert_eq!(s.peek(0, None, 0), Ok(PeekResult::Empty));
    assert!(!s.has_pending_fragment());
}

#[test]
fn peek_hole_enables_exactly_one_discard() {
    let mut s = Stream::new(1).expect("non-null");
    // null pointer, non-zero size: a hole of that length
    assert_eq!(s.peek(0, None, 64), Ok(PeekResult::Hole(64)));
    assert!(s.has_pending_fragment());
    assert_eq!(s.discard(0), Ok(()));
    assert!(!s.has_pending_fragment());
}

#[test]
fn peek_data_enables_exactly_one_discard() {
    let mut s = Stream::new(1).expect("non-null");
    let bytes = vec![1u8, 2, 3, 4];
    match s.peek(0, Some(bytes.clone()), 4) {
        Ok(PeekResult::Data(d)) => assert_eq!(d, bytes),
        other => panic!("expected data, got {:?}", other),
    }
    assert!(s.has_pending_fragment());
    assert_eq!(s.discard(0), Ok(()));
    assert!(!s.has_pending_fragment());
}

#[test]
fn failed_peek_surfaces_code_and_changes_nothing() {
    let mut s = Stream::new(1).expect("non-null");
    assert_eq!(s.peek(-8, None, 0), Err(-8));
    assert!(!s.has_pending_fragment());
}

#[test]
fn connect_without_noautospawn_forwards_spawn_and_code_passes_through() {
    // flags lack the no-autospawn bit and no server is named: the connect
    // call forwards a spawn request
    let c = Context::new(1).expect("non-null");
    let req = c.connect_request(None, NOFLAGS, false).expect("clean");
    assert!(req.forwards_spawn());
    // the fake daemon is unreachable and the native call answers code 5:
    // the wrapper surfaces that code unchanged
    let native_reply: i32 = 5;
    assert_eq!(error::op_result(native_reply), Err(5));
}
