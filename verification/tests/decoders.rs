//! Translation of raw returns at the native boundary: sentinels become
//! empty results, every other value passes through unchanged, and error
//! codes surface as they came.

use pulse_binding::def;
use pulse_binding::error;
use pulse_binding::sample::{SampleFormat, SampleSpec};
use pulse_binding::stream;
use pulse_binding::stream::Latency;

#[test]
fn index_sentinel_yields_none() {
    assert_eq!(def::decode_index(u32::MAX), None);
}

#[test]
fn index_other_values_pass_through() {
    assert_eq!(def::decode_index(0), Some(0));
    assert_eq!(def::decode_index(7), Some(7));
    assert_eq!(def::decode_index(u32::MAX - 1), Some(u32::MAX - 1));
}

#[test]
fn size_sentinel_yields_none() {
    assert_eq!(def::decode_size(usize::MAX), None);
}

#[test]
fn size_other_values_pass_through() {
    assert_eq!(def::decode_size(0), Some(0));
    assert_eq!(def::decode_size(65536), Some(65536));
    assert_eq!(def::decode_size(usize::MAX - 1), Some(usize::MAX - 1));
}

#[test]
fn signed_sentinel_yields_none() {
    assert_eq!(def::decode_signed(-1), None);
}

#[test]
fn signed_other_values_pass_through() {
    assert_eq!(def::decode_signed(0), Some(0));
    assert_eq!(def::decode_signed(4096), Some(4096));
    assert_eq!(def::decode_signed(-2), Some(-2));
}

#[test]
fn null_pointer_yields_none() {
    assert_eq!(def::decode_ptr(0), None);
    assert_eq!(def::decode_ptr(1), Some(1));
    assert_eq!(def::decode_ptr(0xdead_beef), Some(0xdead_beef));
}

#[test]
fn toggle_decoding() {
    assert_eq!(def::decode_toggle(1), Some(true));
    assert_eq!(def::decode_toggle(0), Some(false));
    assert_eq!(def::decode_toggle(-1), None);
    assert_eq!(def::decode_toggle(2), None);
}

#[test]
fn checked_toggle_decoding() {
    assert_eq!(def::decode_checked_toggle(0), Ok(false));
    assert_eq!(def::decode_checked_toggle(1), Ok(true));
    assert_eq!(def::decode_checked_toggle(-9), Err(-9));
}

#[test]
fn zero_return_is_success() {
    assert_eq!(error::op_result(0), Ok(()));
}

#[test]
fn nonzero_return_surfaces_unchanged() {
    assert_eq!(error::op_result(5), Err(5));
    assert_eq!(error::op_result(-3), Err(-3));
    assert_eq!(error::op_result(i32::MIN), Err(i32::MIN));
}

#[test]
fn time_success_carries_value() {
    assert_eq!(stream::decode_time(0, 12345), Ok(Some(12345)));
}

#[test]
fn time_no_data_is_empty_success() {
    // the distinguished no-data code is the negated NoData error value
    let nodata = -(error::Code::NoData.to_raw() as i32);
    assert_eq!(nodata, -16);
    assert_eq!(stream::decode_time(nodata, 0), Ok(None));
}

#[test]
fn time_failure_surfaces_unchanged() {
    assert_eq!(stream::decode_time(-3, 0), Err(-3));
}

#[test]
fn latency_positive_and_negative() {
    assert_eq!(stream::decode_latency(0, 250, 0), Ok(Latency::Positive(250)));
    assert_eq!(stream::decode_latency(0, 250, 1), Ok(Latency::Negative(250)));
}

#[test]
fn latency_no_data_and_failure() {
    assert_eq!(stream::decode_latency(-16, 0, 0), Ok(Latency::NoData));
    assert_eq!(stream::decode_latency(-11, 0, 0), Err(-11));
}

#[test]
fn frame_size_is_width_times_channels() {
    let spc = SampleSpec { format: SampleFormat::S16le, rate: 44100, channels: 2 };
    assert!(spc.is_valid());
    assert_eq!(spc.frame_size(), 4);
    let mono = SampleSpec { format: SampleFormat::S24le, rate: 48000, channels: 1 };
    assert_eq!(mono.frame_size(), 3);
    let wide = SampleSpec { format: SampleFormat::Float32be, rate: 96000, channels: 32 };
    assert_eq!(wide.frame_size(), 128);
}

#[test]
fn sample_spec_bounds() {
    let no_channels = SampleSpec { format: SampleFormat::U8, rate: 44100, channels: 0 };
    assert!(!no_channels.is_valid());
    let too_many = SampleSpec { format: SampleFormat::U8, rate: 44100, channels: 33 };
    assert!(!too_many.is_valid());
    let no_rate = SampleSpec { format: SampleFormat::U8, rate: 0, channels: 1 };
    assert!(!no_rate.is_valid());
    let too_fast = SampleSpec { format: SampleFormat::U8, rate: 384001, channels: 1 };
    assert!(!too_fast.is_valid());
}
