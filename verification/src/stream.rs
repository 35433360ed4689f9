//! The audio-stream wrapper: a handle to a playback, record or sample-upload
//! data channel.
//!
//! The native library owns the stream state machine; this wrapper keeps the
//! pointer value, the ownership discipline, and the client-side sequencing
//! of the data-transfer protocols: the zero-copy write cycle (a reservation
//! made by a begin-write is returned unchanged until a write or a
//! cancel-write retires it) and the read cycle (a peek that reports a hole
//! or data enables exactly one discard). Raw returns are translated into
//! typed results; error codes pass through unchanged.

use vstd::prelude::*;

use crate::ctext::CText;
use crate::error::Code;
use crate::error::call_result;
use crate::handle::Teardown;
use crate::sample::SampleSpec;
use crate::sample::Usecs;

verus! {

/// Option flags of a stream connection.
pub type FlagSet = u32;

/// No special behaviour.
pub const NOFLAGS: FlagSet = 0;

/// Create the stream corked, requiring an explicit uncork.
pub const START_CORKED: FlagSet = 0x1;

/// Interpolate the latency between timing updates.
pub const INTERPOLATE_TIMING: FlagSet = 0x2;

/// Do not force the reported time to increase monotonically.
pub const NOT_MONOTONIC: FlagSet = 0x4;

/// Issue timing update requests periodically and automatically.
pub const AUTO_TIMING_UPDATE: FlagSet = 0x8;

/// Map channels by index rather than by name.
pub const NO_REMAP_CHANNELS: FlagSet = 0x10;

/// When mapping channels by name, never upmix or downmix.
pub const NO_REMIX_CHANNELS: FlagSet = 0x20;

/// Let the device's sample format override the requested one.
pub const FIX_FORMAT: FlagSet = 0x40;

/// Let the device's sample rate override the requested one.
pub const FIX_RATE: FlagSet = 0x80;

/// Let the device's channel setup override the requested one.
pub const FIX_CHANNELS: FlagSet = 0x100;

/// Do not allow moving the stream to another device.
pub const DONT_MOVE: FlagSet = 0x200;

/// Allow changing the sampling rate during playback.
pub const VARIABLE_RATE: FlagSet = 0x400;

/// Find peaks instead of resampling.
pub const PEAK_DETECT: FlagSet = 0x800;

/// Create the stream in muted state.
pub const START_MUTED: FlagSet = 0x1000;

/// Adjust the device latency to the requested buffer metrics.
pub const ADJUST_LATENCY: FlagSet = 0x2000;

/// Enable the fragment-style compatibility request model.
pub const EARLY_REQUESTS: FlagSet = 0x4000;

/// Leave this stream out of auto-suspend accounting.
pub const DONT_INHIBIT_AUTO_SUSPEND: FlagSet = 0x8000;

/// Create the stream in unmuted state.
pub const START_UNMUTED: FlagSet = 0x10000;

/// Fail or terminate when the device is suspended.
pub const FAIL_ON_SUSPEND: FlagSet = 0x20000;

/// Treat a creation volume as relative to the device volume.
pub const RELATIVE_VOLUME: FlagSet = 0x40000;

/// Tag content for passthrough rendering.
pub const PASSTHROUGH: FlagSet = 0x80000;

/// The state of a stream, mirrored value for value.
#[derive(Debug, Copy, Clone, PartialEq, Eq, Structural)]
pub enum State {
    /// The stream is not yet connected to any sink or source.
    Unconnected,
    /// The stream is being created.
    Creating,
    /// The stream is established; audio data may pass through it.
    Ready,
    /// An error occurred that made the stream invalid.
    Failed,
    /// The stream has been terminated cleanly.
    Terminated,
}

impl State {
    /// Returns `true` if the passed state is one of the connected states.
    pub fn is_good(self) -> (r: bool)
        ensures
            r == self.good(),
    {
        self == State::Creating || self == State::Ready
    }

    /// Whether the state is one of the connected states, as a
    /// specification.
    pub open spec fn good(self) -> bool {
        self == State::Creating || self == State::Ready
    }

    /// The native numeric value of this state.
    pub fn to_raw(self) -> (r: u32)
        ensures
            r == self.raw(),
    {
        match self {
            State::Unconnected => 0,
            State::Creating => 1,
            State::Ready => 2,
            State::Failed => 3,
            State::Terminated => 4,
        }
    }

    /// The native numeric value, as a specification.
    pub open spec fn raw(self) -> u32 {
        match self {
            State::Unconnected => 0,
            State::Creating => 1,
            State::Ready => 2,
            State::Failed => 3,
            State::Terminated => 4,
        }
    }

    /// The wrapped state for a native numeric value, `None` for a value
    /// outside the mirrored range.
    pub fn from_raw(raw: u32) -> (r: Option<State>)
        ensures
            r == Self::decoded(raw),
    {
        match raw {
            0 => Some(State::Unconnected),
            1 => Some(State::Creating),
            2 => Some(State::Ready),
            3 => Some(State::Failed),
            4 => Some(State::Terminated),
            _ => None,
        }
    }

    /// The decoding of a native numeric value, as a specification.
    pub open spec fn decoded(raw: u32) -> Option<State> {
        if raw == 0 { Some(State::Unconnected) }
        else if raw == 1 { Some(State::Creating) }
        else if raw == 2 { Some(State::Ready) }
        else if raw == 3 { Some(State::Failed) }
        else if raw == 4 { Some(State::Terminated) }
        else { None }
    }
}

/// Every native numeric stream-state value in the mirrored range maps to a
/// wrapped state and back to the identical numeric value, and every wrapped
/// state survives the round trip through its numeric value.
pub proof fn lemma_stream_state_round_trip(s: State, raw: u32)
    ensures
        State::decoded(s.raw()) == Some(s),
        State::decoded(raw) matches Some(d) ==> d.raw() == raw,
{
}

/// Seek modes of a write, mirrored value for value.
#[derive(Debug, Copy, Clone, PartialEq, Eq, Structural)]
pub enum SeekMode {
    /// Seek relative to the current write index.
    Relative,
    /// Seek relative to the beginning of the buffer queue.
    Absolute,
    /// Seek relative to the current read index; for record streams only.
    RelativeOnRead,
    /// Seek relative to the current end of the buffer queue.
    RelativeEnd,
}

impl SeekMode {
    /// The native numeric value of this seek mode.
    pub fn to_raw(self) -> (r: u32)
        ensures
            r == self.raw(),
    {
        match self {
            SeekMode::Relative => 0,
            SeekMode::Absolute => 1,
            SeekMode::RelativeOnRead => 2,
            SeekMode::RelativeEnd => 3,
        }
    }

    /// The native numeric value, as a specification.
    pub open spec fn raw(self) -> u32 {
        match self {
            SeekMode::Relative => 0,
            SeekMode::Absolute => 1,
            SeekMode::RelativeOnRead => 2,
            SeekMode::RelativeEnd => 3,
        }
    }

    /// The wrapped seek mode for a native numeric value, `None` for a value
    /// outside the mirrored range.
    pub fn from_raw(raw: u32) -> (r: Option<SeekMode>)
        ensures
            r == Self::decoded(raw),
    {
        match raw {
            0 => Some(SeekMode::Relative),
            1 => Some(SeekMode::Absolute),
            2 => Some(SeekMode::RelativeOnRead),
            3 => Some(SeekMode::RelativeEnd),
            _ => None,
        }
    }

    /// The decoding of a native numeric value, as a specification.
    pub open spec fn decoded(raw: u32) -> Option<SeekMode> {
        if raw == 0 { Some(SeekMode::Relative) }
        else if raw == 1 { Some(SeekMode::Absolute) }
        else if raw == 2 { Some(SeekMode::RelativeOnRead) }
        else if raw == 3 { Some(SeekMode::RelativeEnd) }
        else { None }
    }
}

/// Every native numeric seek-mode value in the mirrored range maps to a
/// wrapped mode and back to the identical numeric value, and every wrapped
/// mode survives the round trip through its numeric value.
pub proof fn lemma_seek_mode_round_trip(m: SeekMode, raw: u32)
    ensures
        SeekMode::decoded(m.raw()) == Some(m),
        SeekMode::decoded(raw) matches Some(d) ==> d.raw() == raw,
{
}

/// The outcome of a peek on a record stream.
#[derive(Debug, Clone, PartialEq, Eq)]
pub enum PeekResult {
    /// No data: the native call answered a null pointer and a size of zero.
    Empty,
    /// A hole of the given byte length: a null pointer with a non-zero
    /// size.
    Hole(usize),
    /// Data: the bytes of the fragment at the read index.
    Data(Vec<u8>),
}

/// The outcome of a begin-write on a playback stream.
#[derive(Debug, Copy, Clone, PartialEq, Eq, Structural)]
pub enum BufferResult {
    /// The native call answered a null pointer.
    Null,
    /// A reserved region: its address and the number of bytes that may be
    /// written there.
    Buffer(u64, usize),
}

/// The outcome of a latency query.
#[derive(Debug, Copy, Clone, PartialEq, Eq, Structural)]
pub enum Latency {
    /// No timing data has been received yet.
    NoData,
    /// The captured or queued samples lag the clock by this many
    /// microseconds.
    Positive(Usecs),
    /// The captured samples are ahead of playback by this many
    /// microseconds; seen on monitoring streams.
    Negative(Usecs),
}

/// The abstract state of a stream handle: the pointer value, the ownership
/// discipline, and the client-side protocol positions.
pub struct StreamModel {
    /// The foreign pointer value; never zero.
    pub raw: u64,
    /// Whether the handle is weak.
    pub weak: bool,
    /// Whether the handle has been torn down.
    pub released: bool,
    /// Whether the stream was connected as a sample-upload stream.
    pub upload: bool,
    /// The region reserved by an open begin-write, if any.
    pub reserved: Option<(u64, usize)>,
    /// Whether the last peek reported a hole or data that a discard has not
    /// yet retired.
    pub fragment_pending: bool,
}

/// Whether a discard is enabled: only after a peek that reported a hole or
/// data, and only until the discard that retires it.
pub open spec fn discard_enabled(m: StreamModel) -> bool {
    m.fragment_pending
}

/// The stream state after a peek whose native call returned `code`, a data
/// pointer that was null exactly when `has_data` is false, and `nbytes`
/// bytes: a failed call changes nothing; a successful one enables a discard
/// exactly when it reported a hole or data.
pub open spec fn after_peek(m: StreamModel, code: i32, has_data: bool, nbytes: usize)
    -> StreamModel {
    if code != 0 {
        m
    } else {
        StreamModel { fragment_pending: has_data || nbytes != 0, ..m }
    }
}

/// The stream state after a discard: the pending fragment is retired,
/// whatever the native call answered.
pub open spec fn after_discard(m: StreamModel) -> StreamModel {
    StreamModel { fragment_pending: false, ..m }
}

/// What a begin-write returns: an open reservation is answered again,
/// identically, without consulting the native library; otherwise the native
/// reply is translated, a null pointer into [`BufferResult::Null`] and any
/// other pointer into the reserved region.
pub open spec fn begin_write_result(m: StreamModel, code: i32, addr: u64, len: usize)
    -> Result<BufferResult, i32> {
    match m.reserved {
        Some(p) => Ok(BufferResult::Buffer(p.0, p.1)),
        None => {
            if code != 0 {
                Err(code)
            } else if addr == 0 {
                Ok(BufferResult::Null)
            } else {
                Ok(BufferResult::Buffer(addr, len))
            }
        },
    }
}

/// The stream state after a begin-write: an open reservation stays as it
/// is; otherwise a successful native reply with a non-null pointer opens
/// one.
pub open spec fn after_begin_write(m: StreamModel, code: i32, addr: u64, len: usize)
    -> StreamModel {
    match m.reserved {
        Some(_) => m,
        None => {
            if code == 0 && addr != 0 {
                StreamModel { reserved: Some((addr, len)), ..m }
            } else {
                m
            }
        },
    }
}

/// The stream state after a write or a cancel-write: the reserved region,
/// if any, becomes invalid.
pub open spec fn after_write(m: StreamModel) -> StreamModel {
    StreamModel { reserved: None, ..m }
}

/// Whether a write of `data_len` bytes at `offset` with mode `seek` is
/// allowed on a stream in state `m` under sample specification `spc`: the
/// length comes in whole frames, an upload stream only writes relative to
/// the write index at offset zero, and a write into a reserved region stays
/// within it.
pub open spec fn write_allowed(
    m: StreamModel,
    data_len: usize,
    spc: SampleSpec,
    offset: i64,
    seek: SeekMode,
) -> bool {
    &&& spc.wf()
    &&& data_len as int % spc.frame_width() == 0
    &&& m.upload ==> (seek == SeekMode::Relative && offset == 0)
    &&& m.reserved matches Some(p) ==> data_len <= p.1
}

/// After a peek that answered `Empty` no discard is enabled; after one that
/// answered a hole or data, exactly one discard is enabled before the next
/// peek: the discard itself disables any further discard.
pub proof fn lemma_peek_discard_protocol(m: StreamModel, has_data: bool, nbytes: usize)
    ensures
        !discard_enabled(after_peek(m, 0, false, 0)),
        has_data || nbytes != 0 ==> discard_enabled(after_peek(m, 0, has_data, nbytes)),
        !discard_enabled(after_discard(after_peek(m, 0, has_data, nbytes))),
{
}

/// Two consecutive begin-writes without an intervening write or
/// cancel-write answer the identical pointer/length pair: once the first
/// has opened a reservation, the second returns it unchanged, whatever the
/// native library would have replied.
pub proof fn lemma_begin_write_idempotent(
    m: StreamModel,
    c1: i32,
    a1: u64,
    l1: usize,
    c2: i32,
    a2: u64,
    l2: usize,
)
    requires
        begin_write_result(m, c1, a1, l1) matches Ok(b) && b is Buffer,
    ensures
        begin_write_result(after_begin_write(m, c1, a1, l1), c2, a2, l2)
            == begin_write_result(m, c1, a1, l1),
        after_begin_write(after_begin_write(m, c1, a1, l1), c2, a2, l2)
            == after_begin_write(m, c1, a1, l1),
{
}

/// The marshalled arguments of a playback connection, ready for the native
/// call.
pub struct PlaybackRequest {
    /// The sink name in null-terminated form, or `None` for the default
    /// sink (a null pointer at the boundary).
    pub device: Option<CText>,
    /// Whether buffering attributes accompany the call; `false` passes a
    /// null pointer.
    pub attr_given: bool,
    /// The flags, passed through unchanged.
    pub flags: FlagSet,
    /// Whether an initial volume accompanies the call; `false` passes a
    /// null pointer.
    pub volume_given: bool,
    /// The pointer value of the stream to synchronize with, or zero for a
    /// standalone stream.
    pub sync_raw: u64,
}

/// The marshalled arguments of a record connection, ready for the native
/// call.
pub struct RecordRequest {
    /// The source name in null-terminated form, or `None` for the default
    /// source (a null pointer at the boundary).
    pub device: Option<CText>,
    /// Whether buffering attributes accompany the call; `false` passes a
    /// null pointer.
    pub attr_given: bool,
    /// The flags, passed through unchanged.
    pub flags: FlagSet,
}

/// The marshalled arguments of a stream creation, ready for the native
/// call.
pub struct NewStreamRequest {
    /// The stream name in null-terminated form.
    pub name: CText,
    /// Whether a channel map accompanies the call; `false` passes a null
    /// pointer for the default map.
    pub map_given: bool,
}

/// The marshalled arguments of an extended stream creation, where the
/// server selects among the formats the client can provide.
pub struct ExtendedStreamRequest {
    /// The stream name in null-terminated form.
    pub name: CText,
    /// The number of formats offered, as the native call takes it.
    pub format_count: u32,
}

/// Marshals the arguments of a stream creation: the name becomes a
/// null-terminated buffer, the channel map passes as a presence mark. Fails
/// exactly when the name holds an embedded null byte.
pub fn new_stream_request(name: &Vec<u8>, map_given: bool) -> (r: Option<NewStreamRequest>)
    ensures
        match r {
            Some(req) => req.name@ == name@.push(0u8) && !name@.contains(0u8)
                && req.map_given == map_given,
            None => name@.contains(0u8),
        },
{
    match CText::new(name.as_slice()) {
        Some(c) => Some(NewStreamRequest { name: c, map_given }),
        None => None,
    }
}

/// Marshals the arguments of an extended stream creation: the name becomes
/// a null-terminated buffer and the format count narrows to the unsigned
/// width the native call takes. Fails exactly when the name holds an
/// embedded null byte or the count does not fit.
pub fn new_extended_request(name: &Vec<u8>, n_formats: usize)
    -> (r: Option<ExtendedStreamRequest>)
    ensures
        match r {
            Some(req) => req.name@ == name@.push(0u8) && !name@.contains(0u8)
                && n_formats <= u32::MAX && req.format_count == n_formats,
            None => name@.contains(0u8) || n_formats > u32::MAX,
        },
{
    if n_formats > u32::MAX as usize {
        return None;
    }
    match CText::new(name.as_slice()) {
        Some(c) => Some(ExtendedStreamRequest { name: c, format_count: n_formats as u32 }),
        None => None,
    }
}

/// An owning or weak handle to a stream.
#[derive(Debug)]
pub struct Stream {
    raw: u64,
    weak: bool,
    released: bool,
    upload: bool,
    reserved: Option<(u64, usize)>,
    fragment_pending: bool,
}

impl View for Stream {
    type V = StreamModel;

    closed spec fn view(&self) -> StreamModel {
        StreamModel {
            raw: self.raw,
            weak: self.weak,
            released: self.released,
            upload: self.upload,
            reserved: self.reserved,
            fragment_pending: self.fragment_pending,
        }
    }
}

impl Stream {
    /// The handle wraps a live, non-null foreign pointer.
    pub open spec fn wf(&self) -> bool {
        self@.raw != 0
    }

    /// Wraps the raw pointer a native allocation returned: a null pointer
    /// yields an empty result, any other pointer an owning handle on that
    /// exact pointer value, with no reservation open and no fragment
    /// pending.
    pub fn new(raw: u64) -> (r: Option<Stream>)
        ensures
            raw == 0 <==> r is None,
            r matches Some(s) ==> s@ == (StreamModel {
                raw,
                weak: false,
                released: false,
                upload: false,
                reserved: None,
                fragment_pending: false,
            }),
    {
        if raw == 0 {
            None
        } else {
            Some(
                Stream {
                    raw,
                    weak: false,
                    released: false,
                    upload: false,
                    reserved: None,
                    fragment_pending: false,
                },
            )
        }
    }

    /// Wraps an existing non-null pointer as a weak handle, for use inside
    /// a callback: destroying it never touches the foreign reference count.
    pub fn from_raw_weak(raw: u64) -> (r: Stream)
        requires
            raw != 0,
        ensures
            r@ == (StreamModel {
                raw,
                weak: true,
                released: false,
                upload: false,
                reserved: None,
                fragment_pending: false,
            }),
    {
        Stream {
            raw,
            weak: true,
            released: false,
            upload: false,
            reserved: None,
            fragment_pending: false,
        }
    }

    /// The exact pointer value this handle wraps.
    pub fn as_raw(&self) -> (r: u64)
        ensures
            r == self@.raw,
    {
        self.raw
    }

    /// Whether the handle is weak.
    pub fn is_weak(&self) -> (r: bool)
        ensures
            r == self@.weak,
    {
        self.weak
    }

    /// Whether the stream was connected as a sample-upload stream.
    pub fn is_upload(&self) -> (r: bool)
        ensures
            r == self@.upload,
    {
        self.upload
    }

    /// The region reserved by an open begin-write, if any.
    pub fn reservation(&self) -> (r: Option<(u64, usize)>)
        ensures
            r == self@.reserved,
    {
        self.reserved
    }

    /// Whether the last peek reported a hole or data that no discard has
    /// retired yet.
    pub fn has_pending_fragment(&self) -> (r: bool)
        ensures
            r == self@.fragment_pending,
    {
        self.fragment_pending
    }

    /// Marshals the arguments of a playback connection: the sink name
    /// becomes a null-terminated buffer (or a null pointer for the default
    /// sink); attributes and volume pass as presence marks; a stream to
    /// synchronize with passes as its pointer value, zero for none. Fails
    /// exactly when the sink name holds an embedded null byte.
    pub fn connect_playback_request(
        &self,
        dev: Option<&Vec<u8>>,
        attr_given: bool,
        flags: FlagSet,
        volume_given: bool,
        sync_stream: Option<&Stream>,
    ) -> (r: Option<PlaybackRequest>)
        ensures
            match r {
                Some(req) => {
                    &&& req.attr_given == attr_given
                    &&& req.flags == flags
                    &&& req.volume_given == volume_given
                    &&& match dev {
                        Some(d) => req.device matches Some(c) && c@ == d@.push(0u8)
                            && !d@.contains(0u8),
                        None => req.device is None,
                    }
                    &&& match sync_stream {
                        Some(s) => req.sync_raw == s@.raw,
                        None => req.sync_raw == 0,
                    }
                },
                None => dev matches Some(d) && d@.contains(0u8),
            },
    {
        let device: Option<CText> = match dev {
            Some(d) => {
                match CText::new(d.as_slice()) {
                    Some(c) => Some(c),
                    None => {
                        return None;
                    },
                }
            },
            None => None,
        };
        let sync_raw: u64 = match sync_stream {
            Some(s) => s.as_raw(),
            None => 0,
        };
        Some(PlaybackRequest { device, attr_given, flags, volume_given, sync_raw })
    }

    /// Marshals the arguments of a record connection: the source name
    /// becomes a null-terminated buffer (or a null pointer for the default
    /// source); attributes pass as a presence mark. Fails exactly when the
    /// source name holds an embedded null byte.
    pub fn connect_record_request(&self, dev: Option<&Vec<u8>>, attr_given: bool, flags: FlagSet)
        -> (r: Option<RecordRequest>)
        ensures
            match r {
                Some(req) => {
                    &&& req.attr_given == attr_given
                    &&& req.flags == flags
                    &&& match dev {
                        Some(d) => req.device matches Some(c) && c@ == d@.push(0u8)
                            && !d@.contains(0u8),
                        None => req.device is None,
                    }
                },
                None => dev matches Some(d) && d@.contains(0u8),
            },
    {
        let device: Option<CText> = match dev {
            Some(d) => {
                match CText::new(d.as_slice()) {
                    Some(c) => Some(c),
                    None => {
                        return None;
                    },
                }
            },
            None => None,
        };
        Some(RecordRequest { device, attr_given, flags })
    }

    /// Translates the raw return of the upload-connection call: success
    /// marks the stream as a sample-upload stream, whose writes are
    /// restricted to relative seeks at offset zero; failure surfaces the
    /// raw error code unchanged.
    pub fn connect_upload(&mut self, code: i32) -> (r: Result<(), i32>)
        ensures
            r == call_result(code),
            final(self)@ == (StreamModel {
                upload: old(self)@.upload || code == 0,
                ..old(self)@
            }),
    {
        if code == 0 {
            self.upload = true;
            Ok(())
        } else {
            Err(code)
        }
    }

    /// The size request a begin-write hands to the native call: the wanted
    /// byte count, or the maximum unsigned size to let the native library
    /// choose.
    pub fn begin_write_request(nbytes: Option<usize>) -> (r: usize)
        ensures
            r == (match nbytes {
                Some(n) => n,
                None => usize::MAX,
            }),
    {
        match nbytes {
            Some(n) => n,
            None => usize::MAX,
        }
    }

    /// Prepares writing: while a reservation is open, answers it again,
    /// identically, without consulting the native reply; otherwise
    /// translates the reply, a failure code unchanged, a null pointer into
    /// [`BufferResult::Null`], and any other pointer into a newly opened
    /// reservation.
    pub fn begin_write(&mut self, code: i32, addr: u64, len: usize)
        -> (r: Result<BufferResult, i32>)
        ensures
            r == begin_write_result(old(self)@, code, addr, len),
            final(self)@ == after_begin_write(old(self)@, code, addr, len),
    {
        match self.reserved {
            Some(p) => Ok(BufferResult::Buffer(p.0, p.1)),
            None => {
                if code != 0 {
                    Err(code)
                } else if addr == 0 {
                    Ok(BufferResult::Null)
                } else {
                    self.reserved = Some((addr, len));
                    Ok(BufferResult::Buffer(addr, len))
                }
            },
        }
    }

    /// Reverses an open begin-write: the reserved region becomes invalid,
    /// and the raw return of the native cancel call passes through
    /// unchanged.
    pub fn cancel_write(&mut self, code: i32) -> (r: Result<(), i32>)
        requires
            old(self)@.reserved is Some,
        ensures
            r == call_result(code),
            final(self)@ == after_write(old(self)@),
    {
        self.reserved = None;
        if code == 0 {
            Ok(())
        } else {
            Err(code)
        }
    }

    /// Whether a write of `data_len` bytes at `offset` with mode `seek` is
    /// allowed on this stream under `spc`: the length comes in whole
    /// frames, an upload stream only writes relative to the write index at
    /// offset zero, and a write into a reserved region stays within it.
    /// The check runs before any native call is made.
    pub fn check_write(&self, data_len: usize, spc: &SampleSpec, offset: i64, seek: SeekMode)
        -> (r: bool)
        ensures
            r == write_allowed(self@, data_len, *spc, offset, seek),
    {
        if !spc.is_valid() {
            return false;
        }
        if data_len % spc.frame_size() != 0 {
            return false;
        }
        if self.upload && !(seek == SeekMode::Relative && offset == 0) {
            return false;
        }
        match self.reserved {
            Some(p) => data_len <= p.1,
            None => true,
        }
    }

    /// Writes data: the raw return of the native write call passes through
    /// unchanged, and the reserved region, if any, becomes invalid. The
    /// data length must come in whole frames of the active sample
    /// specification, an upload stream only writes relative to the write
    /// index at offset zero, and a write into a reserved region stays
    /// within it; [`Stream::check_write`] tests these before the native
    /// call is made.
    pub fn write(
        &mut self,
        data_len: usize,
        spc: &SampleSpec,
        offset: i64,
        seek: SeekMode,
        code: i32,
    ) -> (r: Result<(), i32>)
        requires
            write_allowed(old(self)@, data_len, *spc, offset, seek),
        ensures
            r == call_result(code),
            final(self)@ == after_write(old(self)@),
    {
        self.reserved = None;
        if code == 0 {
            Ok(())
        } else {
            Err(code)
        }
    }

    /// Reads the next fragment: a failed native call surfaces its code
    /// unchanged and changes nothing; a successful one with a null pointer
    /// and a size of zero answers `Empty`, with a null pointer and a
    /// non-zero size a hole of that length, and with data the bytes of the
    /// fragment. A hole or data enables exactly one discard.
    pub fn peek(&mut self, code: i32, data: Option<Vec<u8>>, nbytes: usize)
        -> (r: Result<PeekResult, i32>)
        requires
            data matches Some(d) ==> d@.len() == nbytes,
        ensures
            final(self)@ == after_peek(old(self)@, code, data is Some, nbytes),
            code != 0 ==> (r matches Err(e) && e == code),
            code == 0 && data is None && nbytes == 0 ==> (r matches Ok(p) && p is Empty),
            code == 0 && data is None && nbytes != 0 ==> (r matches Ok(p)
                && p matches PeekResult::Hole(n) && n == nbytes),
            data matches Some(d) ==> (code == 0 ==> (r matches Ok(p)
                && p matches PeekResult::Data(v) && v@ == d@)),
    {
        if code != 0 {
            return Err(code);
        }
        match data {
            Some(d) => {
                self.fragment_pending = true;
                Ok(PeekResult::Data(d))
            },
            None => {
                if nbytes == 0 {
                    self.fragment_pending = false;
                    Ok(PeekResult::Empty)
                } else {
                    self.fragment_pending = true;
                    Ok(PeekResult::Hole(nbytes))
                }
            },
        }
    }

    /// Retires the fragment the last peek reported: invalid without a
    /// preceding peek that reported a hole or data, and the raw return of
    /// the native call passes through unchanged.
    pub fn discard(&mut self, code: i32) -> (r: Result<(), i32>)
        requires
            discard_enabled(old(self)@),
        ensures
            r == call_result(code),
            final(self)@ == after_discard(old(self)@),
    {
        self.fragment_pending = false;
        if code == 0 {
            Ok(())
        } else {
            Err(code)
        }
    }

    /// Tears the handle down, once: an owning handle obliges the host to
    /// request disconnection and then decrement the foreign reference count
    /// exactly once, in that order; a weak handle obliges it to nothing.
    pub fn release(&mut self) -> (t: Teardown)
        requires
            !old(self)@.released,
        ensures
            final(self)@ == (StreamModel { released: true, ..old(self)@ }),
            t == crate::handle::stream_teardown(old(self)@.weak),
    {
        self.released = true;
        if self.weak {
            Teardown::Nothing
        } else {
            Teardown::DisconnectThenUnref
        }
    }
}

/// Translates the raw return of a time query: success carries the time in
/// microseconds; the distinguished no-data code answers an empty value, to
/// tell "not ready yet" from failure; any other code surfaces unchanged.
pub fn decode_time(code: i32, usecs: Usecs) -> (r: Result<Option<Usecs>, i32>)
    ensures
        code == 0 ==> (r matches Ok(t) && t == Some(usecs)),
        code == no_data_code() ==> (r matches Ok(t) && t is None),
        code != 0 && code != no_data_code() ==> (r matches Err(e) && e == code),
{
    let nodata: i32 = 0 - (Code::NoData.to_raw() as i32);
    if code == 0 {
        Ok(Some(usecs))
    } else if code == nodata {
        Ok(None)
    } else {
        Err(code)
    }
}

/// Translates the raw return of a latency query: success carries the
/// latency in microseconds, negative exactly when the native call set its
/// negative mark to one; the distinguished no-data code answers
/// [`Latency::NoData`]; any other code surfaces unchanged.
pub fn decode_latency(code: i32, usecs: Usecs, negative: i32) -> (r: Result<Latency, i32>)
    ensures
        code == 0 && negative == 1 ==> r == Result::<Latency, i32>::Ok(
            Latency::Negative(usecs),
        ),
        code == 0 && negative != 1 ==> r == Result::<Latency, i32>::Ok(
            Latency::Positive(usecs),
        ),
        code == no_data_code() ==> r == Result::<Latency, i32>::Ok(Latency::NoData),
        code != 0 && code != no_data_code() ==> r == Result::<Latency, i32>::Err(code),
{
    let nodata: i32 = 0 - (Code::NoData.to_raw() as i32);
    if code == 0 {
        if negative == 1 {
            Ok(Latency::Negative(usecs))
        } else {
            Ok(Latency::Positive(usecs))
        }
    } else if code == nodata {
        Ok(Latency::NoData)
    } else {
        Err(code)
    }
}

/// The raw return that marks "no data yet" on timing queries: the negated
/// no-data error code.
pub open spec fn no_data_code() -> int {
    -(Code::NoData.raw() as int)
}

} // verus!
