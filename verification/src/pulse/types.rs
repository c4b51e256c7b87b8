//! The values that the audio server and its client exchange: states, event
//! codes, flags and the records that describe the server and a sink.
//!
//! The names are those of the audio server's own interface. Where the server
//! knows a value by a number, `as_raw` or `bits` gives that number.

use vstd::prelude::*;
use vstd::utf8::*;

verus! {

/// The direction of a stream.
#[allow(non_camel_case_types)]
#[derive(Clone, Copy, Debug, PartialEq, Eq, Structural)]
pub enum pa_stream_direction {
    NoDirection,
    StreamPlayback,
    StreamRecord,
    StreamUpload,
}

impl pa_stream_direction {
    /// The number by which the server knows this direction.
    pub open spec fn spec_as_raw(self) -> i32 {
        match self {
            pa_stream_direction::NoDirection => 0,
            pa_stream_direction::StreamPlayback => 1,
            pa_stream_direction::StreamRecord => 2,
            pa_stream_direction::StreamUpload => 3,
        }
    }

    /// The number by which the server knows this direction.
    pub fn as_raw(self) -> (raw: i32)
        ensures
            raw == self.spec_as_raw(),
    {
        match self {
            pa_stream_direction::NoDirection => 0,
            pa_stream_direction::StreamPlayback => 1,
            pa_stream_direction::StreamRecord => 2,
            pa_stream_direction::StreamUpload => 3,
        }
    }
}

/// How to connect to the server.
#[allow(non_camel_case_types)]
#[derive(Clone, Copy, Debug, PartialEq, Eq, Structural)]
pub enum pa_context_flags {
    /// Do not start the server where none runs.
    NOAUTOSPAWN,
    /// Do not fail where no server runs: wait for one to appear.
    NOFAIL,
}

/// The state of the connection to the server.
#[allow(non_camel_case_types)]
#[derive(Clone, Copy, Debug, PartialEq, Eq, Structural)]
pub enum pa_context_state {
    /// The context hasn't been connected yet.
    UNCONNECTED,
    /// A connection is being established.
    CONNECTING,
    /// The client is authorizing itself to the daemon.
    AUTHORIZING,
    /// The client is passing its application name to the daemon.
    SETTING_NAME,
    /// The connection is established, the context is ready to execute
    /// operations.
    READY,
    /// The connection failed or was disconnected.
    FAILED,
    /// The connection was terminated cleanly.
    TERMINATED,
}

impl pa_context_state {
    /// The number by which the server knows this state.
    pub open spec fn spec_as_raw(self) -> i32 {
        match self {
            pa_context_state::UNCONNECTED => 0,
            pa_context_state::CONNECTING => 1,
            pa_context_state::AUTHORIZING => 2,
            pa_context_state::SETTING_NAME => 3,
            pa_context_state::READY => 4,
            pa_context_state::FAILED => 5,
            pa_context_state::TERMINATED => 6,
        }
    }

    /// A state from which the connection never leaves: it has failed or was
    /// terminated.
    pub open spec fn spec_is_terminal(self) -> bool {
        self == pa_context_state::FAILED || self == pa_context_state::TERMINATED
    }

    /// The number by which the server knows this state.
    pub fn as_raw(self) -> (raw: i32)
        ensures
            raw == self.spec_as_raw(),
    {
        match self {
            pa_context_state::UNCONNECTED => 0,
            pa_context_state::CONNECTING => 1,
            pa_context_state::AUTHORIZING => 2,
            pa_context_state::SETTING_NAME => 3,
            pa_context_state::READY => 4,
            pa_context_state::FAILED => 5,
            pa_context_state::TERMINATED => 6,
        }
    }

    /// The state that the server knows by this number, if there is one.
    pub fn from_raw(raw: i32) -> (state: Option<pa_context_state>)
        ensures
            match state {
                Some(s) => s.spec_as_raw() == raw,
                None => forall|s: pa_context_state| s.spec_as_raw() != raw,
            },
    {
        if raw == 0 {
            Some(pa_context_state::UNCONNECTED)
        } else if raw == 1 {
            Some(pa_context_state::CONNECTING)
        } else if raw == 2 {
            Some(pa_context_state::AUTHORIZING)
        } else if raw == 3 {
            Some(pa_context_state::SETTING_NAME)
        } else if raw == 4 {
            Some(pa_context_state::READY)
        } else if raw == 5 {
            Some(pa_context_state::FAILED)
        } else if raw == 6 {
            Some(pa_context_state::TERMINATED)
        } else {
            None
        }
    }

    /// Whether the connection never leaves this state.
    pub fn is_terminal(self) -> (terminal: bool)
        ensures
            terminal == self.spec_is_terminal(),
    {
        match self {
            pa_context_state::FAILED => true,
            pa_context_state::TERMINATED => true,
            _ => false,
        }
    }

    /// Whether the connection is established.
    pub fn is_ready(self) -> (ready: bool)
        ensures
            ready == (self == pa_context_state::READY),
    {
        match self {
            pa_context_state::READY => true,
            _ => false,
        }
    }
}

/// The format of one sample.
#[allow(non_camel_case_types)]
#[derive(Clone, Copy, Debug, PartialEq, Eq, Structural)]
pub enum pa_sample_format {
    PA_SAMPLE_U8,
    PA_SAMPLE_ALAW,
    PA_SAMPLE_ULAW,
    PA_SAMPLE_S16LE,
    PA_SAMPLE_S16BE,
    PA_SAMPLE_FLOAT32LE,
    PA_SAMPLE_FLOAT32BE,
    PA_SAMPLE_S32LE,
    PA_SAMPLE_S32BE,
    PA_SAMPLE_S24LE,
    PA_SAMPLE_S24BE,
    PA_SAMPLE_S24_32LE,
    PA_SAMPLE_S24_32BE,
    PA_SAMPLE_MAX,
    PA_SAMPLE_INVALID,
}

impl pa_sample_format {
    /// The number by which the server knows this format.
    pub open spec fn spec_as_raw(self) -> i32 {
        match self {
            pa_sample_format::PA_SAMPLE_U8 => 0,
            pa_sample_format::PA_SAMPLE_ALAW => 1,
            pa_sample_format::PA_SAMPLE_ULAW => 2,
            pa_sample_format::PA_SAMPLE_S16LE => 3,
            pa_sample_format::PA_SAMPLE_S16BE => 4,
            pa_sample_format::PA_SAMPLE_FLOAT32LE => 5,
            pa_sample_format::PA_SAMPLE_FLOAT32BE => 6,
            pa_sample_format::PA_SAMPLE_S32LE => 7,
            pa_sample_format::PA_SAMPLE_S32BE => 8,
            pa_sample_format::PA_SAMPLE_S24LE => 9,
            pa_sample_format::PA_SAMPLE_S24BE => 10,
            pa_sample_format::PA_SAMPLE_S24_32LE => 11,
            pa_sample_format::PA_SAMPLE_S24_32BE => 12,
            pa_sample_format::PA_SAMPLE_MAX => 13,
            pa_sample_format::PA_SAMPLE_INVALID => -1i32,
        }
    }

    /// The number by which the server knows this format.
    pub fn as_raw(self) -> (raw: i32)
        ensures
            raw == self.spec_as_raw(),
    {
        match self {
            pa_sample_format::PA_SAMPLE_U8 => 0,
            pa_sample_format::PA_SAMPLE_ALAW => 1,
            pa_sample_format::PA_SAMPLE_ULAW => 2,
            pa_sample_format::PA_SAMPLE_S16LE => 3,
            pa_sample_format::PA_SAMPLE_S16BE => 4,
            pa_sample_format::PA_SAMPLE_FLOAT32LE => 5,
            pa_sample_format::PA_SAMPLE_FLOAT32BE => 6,
            pa_sample_format::PA_SAMPLE_S32LE => 7,
            pa_sample_format::PA_SAMPLE_S32BE => 8,
            pa_sample_format::PA_SAMPLE_S24LE => 9,
            pa_sample_format::PA_SAMPLE_S24BE => 10,
            pa_sample_format::PA_SAMPLE_S24_32LE => 11,
            pa_sample_format::PA_SAMPLE_S24_32BE => 12,
            pa_sample_format::PA_SAMPLE_MAX => 13,
            pa_sample_format::PA_SAMPLE_INVALID => -1i32,
        }
    }

    /// The format that the server knows by this number. A number that names
    /// no format gives the invalid format.
    pub fn from_raw(raw: i32) -> (format: pa_sample_format)
        ensures
            format.spec_as_raw() == raw || (format == pa_sample_format::PA_SAMPLE_INVALID
                && forall|f: pa_sample_format| f.spec_as_raw() != raw),
    {
        if raw == 0 {
            pa_sample_format::PA_SAMPLE_U8
        } else if raw == 1 {
            pa_sample_format::PA_SAMPLE_ALAW
        } else if raw == 2 {
            pa_sample_format::PA_SAMPLE_ULAW
        } else if raw == 3 {
            pa_sample_format::PA_SAMPLE_S16LE
        } else if raw == 4 {
            pa_sample_format::PA_SAMPLE_S16BE
        } else if raw == 5 {
            pa_sample_format::PA_SAMPLE_FLOAT32LE
        } else if raw == 6 {
            pa_sample_format::PA_SAMPLE_FLOAT32BE
        } else if raw == 7 {
            pa_sample_format::PA_SAMPLE_S32LE
        } else if raw == 8 {
            pa_sample_format::PA_SAMPLE_S32BE
        } else if raw == 9 {
            pa_sample_format::PA_SAMPLE_S24LE
        } else if raw == 10 {
            pa_sample_format::PA_SAMPLE_S24BE
        } else if raw == 11 {
            pa_sample_format::PA_SAMPLE_S24_32LE
        } else if raw == 12 {
            pa_sample_format::PA_SAMPLE_S24_32BE
        } else if raw == 13 {
            pa_sample_format::PA_SAMPLE_MAX
        } else {
            pa_sample_format::PA_SAMPLE_INVALID
        }
    }

    /// How many bytes one sample of one channel takes. The two markers that
    /// are no formats take none.
    pub open spec fn spec_sample_size(self) -> nat {
        match self {
            pa_sample_format::PA_SAMPLE_U8 => 1,
            pa_sample_format::PA_SAMPLE_ALAW => 1,
            pa_sample_format::PA_SAMPLE_ULAW => 1,
            pa_sample_format::PA_SAMPLE_S16LE => 2,
            pa_sample_format::PA_SAMPLE_S16BE => 2,
            pa_sample_format::PA_SAMPLE_FLOAT32LE => 4,
            pa_sample_format::PA_SAMPLE_FLOAT32BE => 4,
            pa_sample_format::PA_SAMPLE_S32LE => 4,
            pa_sample_format::PA_SAMPLE_S32BE => 4,
            pa_sample_format::PA_SAMPLE_S24LE => 3,
            pa_sample_format::PA_SAMPLE_S24BE => 3,
            pa_sample_format::PA_SAMPLE_S24_32LE => 4,
            pa_sample_format::PA_SAMPLE_S24_32BE => 4,
            pa_sample_format::PA_SAMPLE_MAX => 0,
            pa_sample_format::PA_SAMPLE_INVALID => 0,
        }
    }

    /// How many bytes one sample of one channel takes.
    pub fn sample_size(self) -> (bytes: usize)
        ensures
            bytes == self.spec_sample_size(),
    {
        match self {
            pa_sample_format::PA_SAMPLE_U8 => 1,
            pa_sample_format::PA_SAMPLE_ALAW => 1,
            pa_sample_format::PA_SAMPLE_ULAW => 1,
            pa_sample_format::PA_SAMPLE_S16LE => 2,
            pa_sample_format::PA_SAMPLE_S16BE => 2,
            pa_sample_format::PA_SAMPLE_FLOAT32LE => 4,
            pa_sample_format::PA_SAMPLE_FLOAT32BE => 4,
            pa_sample_format::PA_SAMPLE_S32LE => 4,
            pa_sample_format::PA_SAMPLE_S32BE => 4,
            pa_sample_format::PA_SAMPLE_S24LE => 3,
            pa_sample_format::PA_SAMPLE_S24BE => 3,
            pa_sample_format::PA_SAMPLE_S24_32LE => 4,
            pa_sample_format::PA_SAMPLE_S24_32BE => 4,
            pa_sample_format::PA_SAMPLE_MAX => 0,
            pa_sample_format::PA_SAMPLE_INVALID => 0,
        }
    }
}

/// The state of a sink.
#[allow(non_camel_case_types)]
#[derive(Clone, Copy, Debug, PartialEq, Eq, Structural)]
pub enum pa_sink_state_t {
    PA_SINK_INVALID_STATE,
    PA_SINK_RUNNING,
    PA_SINK_IDLE,
    PA_SINK_SUSPENDED,
    PA_SINK_INIT,
    PA_SINK_UNLINKED,
}

impl pa_sink_state_t {
    /// The number by which the server knows this state.
    pub open spec fn spec_as_raw(self) -> i32 {
        match self {
            pa_sink_state_t::PA_SINK_INVALID_STATE => -1i32,
            pa_sink_state_t::PA_SINK_RUNNING => 0,
            pa_sink_state_t::PA_SINK_IDLE => 1,
            pa_sink_state_t::PA_SINK_SUSPENDED => 2,
            pa_sink_state_t::PA_SINK_INIT => -2i32,
            pa_sink_state_t::PA_SINK_UNLINKED => -3i32,
        }
    }

    /// The number by which the server knows this state.
    pub fn as_raw(self) -> (raw: i32)
        ensures
            raw == self.spec_as_raw(),
    {
        match self {
            pa_sink_state_t::PA_SINK_INVALID_STATE => -1i32,
            pa_sink_state_t::PA_SINK_RUNNING => 0,
            pa_sink_state_t::PA_SINK_IDLE => 1,
            pa_sink_state_t::PA_SINK_SUSPENDED => 2,
            pa_sink_state_t::PA_SINK_INIT => -2i32,
            pa_sink_state_t::PA_SINK_UNLINKED => -3i32,
        }
    }

    /// The state that the server knows by this number. A number that names
    /// no state gives the invalid state.
    pub fn from_raw(raw: i32) -> (state: pa_sink_state_t)
        ensures
            state.spec_as_raw() == raw || (state == pa_sink_state_t::PA_SINK_INVALID_STATE
                && forall|s: pa_sink_state_t| s.spec_as_raw() != raw),
    {
        if raw == 0 {
            pa_sink_state_t::PA_SINK_RUNNING
        } else if raw == 1 {
            pa_sink_state_t::PA_SINK_IDLE
        } else if raw == 2 {
            pa_sink_state_t::PA_SINK_SUSPENDED
        } else if raw == -2 {
            pa_sink_state_t::PA_SINK_INIT
        } else if raw == -3 {
            pa_sink_state_t::PA_SINK_UNLINKED
        } else {
            pa_sink_state_t::PA_SINK_INVALID_STATE
        }
    }
}

/// What a sink can do. Each flag is one bit.
#[allow(non_camel_case_types)]
#[derive(Clone, Copy, Debug, PartialEq, Eq, Structural)]
pub enum pa_sink_flags_t {
    PA_SINK_NOFLAGS,
    PA_SINK_HW_VOLUME_CTRL,
    PA_SINK_LATENCY,
    PA_SINK_HARDWARE,
    PA_SINK_NETWORK,
    PA_SINK_HW_MUTE_CTRL,
    PA_SINK_DECIBEL_VOLUME,
    PA_SINK_FLAT_VOLUME,
    PA_SINK_DYNAMIC_LATENCY,
}

impl pa_sink_flags_t {
    /// The bit of this flag.
    pub open spec fn spec_bits(self) -> i32 {
        match self {
            pa_sink_flags_t::PA_SINK_NOFLAGS => 0x0000,
            pa_sink_flags_t::PA_SINK_HW_VOLUME_CTRL => 0x0001,
            pa_sink_flags_t::PA_SINK_LATENCY => 0x0002,
            pa_sink_flags_t::PA_SINK_HARDWARE => 0x0004,
            pa_sink_flags_t::PA_SINK_NETWORK => 0x0008,
            pa_sink_flags_t::PA_SINK_HW_MUTE_CTRL => 0x0010,
            pa_sink_flags_t::PA_SINK_DECIBEL_VOLUME => 0x0020,
            pa_sink_flags_t::PA_SINK_FLAT_VOLUME => 0x0040,
            pa_sink_flags_t::PA_SINK_DYNAMIC_LATENCY => 0x0080,
        }
    }

    /// The bit of this flag.
    pub fn bits(self) -> (raw: i32)
        ensures
            raw == self.spec_bits(),
    {
        match self {
            pa_sink_flags_t::PA_SINK_NOFLAGS => 0x0000,
            pa_sink_flags_t::PA_SINK_HW_VOLUME_CTRL => 0x0001,
            pa_sink_flags_t::PA_SINK_LATENCY => 0x0002,
            pa_sink_flags_t::PA_SINK_HARDWARE => 0x0004,
            pa_sink_flags_t::PA_SINK_NETWORK => 0x0008,
            pa_sink_flags_t::PA_SINK_HW_MUTE_CTRL => 0x0010,
            pa_sink_flags_t::PA_SINK_DECIBEL_VOLUME => 0x0020,
            pa_sink_flags_t::PA_SINK_FLAT_VOLUME => 0x0040,
            pa_sink_flags_t::PA_SINK_DYNAMIC_LATENCY => 0x0080,
        }
    }
}

/// How a stream of audio is encoded.
#[allow(non_camel_case_types)]
#[derive(Clone, Copy, Debug, PartialEq, Eq, Structural)]
pub enum pa_encoding_t {
    PA_ENCODING_ANY,
    PA_ENCODING_PCM,
    PA_ENCODING_AC3_IEC61937,
    PA_ENCODING_EAC3_IEC61937,
    PA_ENCODING_MPEG_IEC61937,
    PA_ENCODING_DTS_IEC61937,
    PA_ENCODING_MPEG2_AAC_IEC61937,
    PA_ENCODING_MAX,
    PA_ENCODING_INVALID,
}

impl pa_encoding_t {
    /// The number by which the server knows this encoding.
    pub open spec fn spec_as_raw(self) -> i32 {
        match self {
            pa_encoding_t::PA_ENCODING_ANY => 0,
            pa_encoding_t::PA_ENCODING_PCM => 1,
            pa_encoding_t::PA_ENCODING_AC3_IEC61937 => 2,
            pa_encoding_t::PA_ENCODING_EAC3_IEC61937 => 3,
            pa_encoding_t::PA_ENCODING_MPEG_IEC61937 => 4,
            pa_encoding_t::PA_ENCODING_DTS_IEC61937 => 5,
            pa_encoding_t::PA_ENCODING_MPEG2_AAC_IEC61937 => 6,
            pa_encoding_t::PA_ENCODING_MAX => 7,
            pa_encoding_t::PA_ENCODING_INVALID => -1i32,
        }
    }

    /// The number by which the server knows this encoding.
    pub fn as_raw(self) -> (raw: i32)
        ensures
            raw == self.spec_as_raw(),
    {
        match self {
            pa_encoding_t::PA_ENCODING_ANY => 0,
            pa_encoding_t::PA_ENCODING_PCM => 1,
            pa_encoding_t::PA_ENCODING_AC3_IEC61937 => 2,
            pa_encoding_t::PA_ENCODING_EAC3_IEC61937 => 3,
            pa_encoding_t::PA_ENCODING_MPEG_IEC61937 => 4,
            pa_encoding_t::PA_ENCODING_DTS_IEC61937 => 5,
            pa_encoding_t::PA_ENCODING_MPEG2_AAC_IEC61937 => 6,
            pa_encoding_t::PA_ENCODING_MAX => 7,
            pa_encoding_t::PA_ENCODING_INVALID => -1i32,
        }
    }
}

/// The parts of the code of an event: the facility that the event is about,
/// in the low four bits, and what happened to it, in the two bits above.
/// `FACILITY_MASK` and `TYPE_MASK` cut the two parts out of a code. An event
/// whose second part is zero tells of something new.
#[allow(non_camel_case_types)]
#[derive(Clone, Copy, Debug, PartialEq, Eq, Structural)]
pub enum pa_subscription_event_type {
    SINK,
    SOURCE,
    SINK_INPUT,
    SOURCE_OUTPUT,
    MODULE,
    CLIENT,
    SAMPLE_CACHE,
    SERVER,
    AUTOLOAD,
    CARD,
    FACILITY_MASK,
    CHANGE,
    REMOVE,
    TYPE_MASK,
}

impl pa_subscription_event_type {
    /// The bits of this part of an event code.
    pub open spec fn spec_bits(self) -> i32 {
        match self {
            pa_subscription_event_type::SINK => 0x0000,
            pa_subscription_event_type::SOURCE => 0x0001,
            pa_subscription_event_type::SINK_INPUT => 0x0002,
            pa_subscription_event_type::SOURCE_OUTPUT => 0x0003,
            pa_subscription_event_type::MODULE => 0x0004,
            pa_subscription_event_type::CLIENT => 0x0005,
            pa_subscription_event_type::SAMPLE_CACHE => 0x0006,
            pa_subscription_event_type::SERVER => 0x0007,
            pa_subscription_event_type::AUTOLOAD => 0x0008,
            pa_subscription_event_type::CARD => 0x0009,
            pa_subscription_event_type::FACILITY_MASK => 0x000F,
            pa_subscription_event_type::CHANGE => 0x0010,
            pa_subscription_event_type::REMOVE => 0x0020,
            pa_subscription_event_type::TYPE_MASK => 0x0030,
        }
    }

    /// The bits of this part of an event code.
    pub fn bits(self) -> (raw: i32)
        ensures
            raw == self.spec_bits(),
    {
        match self {
            pa_subscription_event_type::SINK => 0x0000,
            pa_subscription_event_type::SOURCE => 0x0001,
            pa_subscription_event_type::SINK_INPUT => 0x0002,
            pa_subscription_event_type::SOURCE_OUTPUT => 0x0003,
            pa_subscription_event_type::MODULE => 0x0004,
            pa_subscription_event_type::CLIENT => 0x0005,
            pa_subscription_event_type::SAMPLE_CACHE => 0x0006,
            pa_subscription_event_type::SERVER => 0x0007,
            pa_subscription_event_type::AUTOLOAD => 0x0008,
            pa_subscription_event_type::CARD => 0x0009,
            pa_subscription_event_type::FACILITY_MASK => 0x000F,
            pa_subscription_event_type::CHANGE => 0x0010,
            pa_subscription_event_type::REMOVE => 0x0020,
            pa_subscription_event_type::TYPE_MASK => 0x0030,
        }
    }
}

/// The facility that an event code is about.
pub open spec fn event_facility(event: i32) -> i32 {
    event & 0x000F
}

/// What an event code says has happened.
pub open spec fn event_kind(event: i32) -> i32 {
    event & 0x0030
}

/// An event that says that the configuration of the server has changed: its
/// facility is the server and its kind is a change.
pub open spec fn is_server_change(event: i32) -> bool {
    event_facility(event) == 0x0007 && event_kind(event) == 0x0010
}

/// Whether an event says that the configuration of the server has changed.
/// Events about another facility, and events of another kind, do not.
pub fn server_changed(event: i32) -> (changed: bool)
    ensures
        changed == is_server_change(event),
{
    let facility: i32 = event & pa_subscription_event_type::FACILITY_MASK.bits();
    let kind: i32 = event & pa_subscription_event_type::TYPE_MASK.bits();
    facility == pa_subscription_event_type::SERVER.bits() && kind
        == pa_subscription_event_type::CHANGE.bits()
}

/// The facilities whose events a client can subscribe to. Each is one bit of
/// a subscription mask.
#[allow(non_camel_case_types)]
#[derive(Clone, Copy, Debug, PartialEq, Eq, Structural)]
pub enum pa_subscription_mask {
    NULL,
    SINK,
    SOURCE,
    SINK_INPUT,
    SOURCE_OUTPUT,
    MODULE,
    CLIENT,
    SAMPLE_CACHE,
    SERVER,
    AUTOLOAD,
    CARD,
}

impl pa_subscription_mask {
    /// The bit of this facility in a subscription mask.
    pub open spec fn spec_bits(self) -> i32 {
        match self {
            pa_subscription_mask::NULL => 0x0000,
            pa_subscription_mask::SINK => 0x0001,
            pa_subscription_mask::SOURCE => 0x0002,
            pa_subscription_mask::SINK_INPUT => 0x0004,
            pa_subscription_mask::SOURCE_OUTPUT => 0x0008,
            pa_subscription_mask::MODULE => 0x0010,
            pa_subscription_mask::CLIENT => 0x0020,
            pa_subscription_mask::SAMPLE_CACHE => 0x0040,
            pa_subscription_mask::SERVER => 0x0080,
            pa_subscription_mask::AUTOLOAD => 0x0100,
            pa_subscription_mask::CARD => 0x0200,
        }
    }

    /// The bit of this facility in a subscription mask.
    pub fn bits(self) -> (raw: i32)
        ensures
            raw == self.spec_bits(),
    {
        match self {
            pa_subscription_mask::NULL => 0x0000,
            pa_subscription_mask::SINK => 0x0001,
            pa_subscription_mask::SOURCE => 0x0002,
            pa_subscription_mask::SINK_INPUT => 0x0004,
            pa_subscription_mask::SOURCE_OUTPUT => 0x0008,
            pa_subscription_mask::MODULE => 0x0010,
            pa_subscription_mask::CLIENT => 0x0020,
            pa_subscription_mask::SAMPLE_CACHE => 0x0040,
            pa_subscription_mask::SERVER => 0x0080,
            pa_subscription_mask::AUTOLOAD => 0x0100,
            pa_subscription_mask::CARD => 0x0200,
        }
    }
}

/// Options of a stream. Each flag is one bit.
#[allow(non_camel_case_types)]
#[derive(Clone, Copy, Debug, PartialEq, Eq, Structural)]
pub enum pa_stream_flags_t {
    /// Default option: no flags necessary.
    PA_STREAM_NOFLAGS,
    /// Starts the stream as "corked", requiring it to be uncorked before
    /// playback.
    PA_STREAM_START_CORKED,
    /// Interpolate the latency for this stream.
    PA_STREAM_INTERPOLATE_TIMING,
    /// Don't force time to increase monotonically.
    PA_STREAM_NOT_MONOTONIC,
    /// Issue timing updates automatically.
    PA_STREAM_AUTO_TIMING_UPDATE,
    /// Remap channels by index instead of name.
    PA_STREAM_NO_REMAP_CHANNELS,
    /// Don't up/downmix channels remapped by name to related channels.
    PA_STREAM_NO_REMIX_CHANNELS,
    /// Use the sample format of the sink/device this stream is connected to.
    PA_STREAM_FIX_FORMAT,
    /// Use the sample rate of the sink.
    PA_STREAM_FIX_RATE,
    /// Use the sink's number of channels and channel map.
    PA_STREAM_FIX_CHANNELS,
    /// Don't allow moving of this stream to another sink/device.
    PA_STREAM_DONT_MOVE,
    /// Allow dynamic changing of the sampling rate during playback.
    PA_STREAM_VARIABLE_RATE,
    /// Find peaks instead of resampling.
    PA_STREAM_PEAK_DETECT,
    /// Create in muted state.
    PA_STREAM_START_MUTED,
    /// Adjust sink/source's latency based on the requested buffer metrics.
    PA_STREAM_ADJUST_LATENCY,
    /// Ask for data early.
    PA_STREAM_EARLY_REQUESTS,
    /// Don't inhibit the connected device from auto-suspending.
    PA_STREAM_DONT_INHIBIT_AUTO_SUSPEND,
    /// Create in unmuted state.
    PA_STREAM_START_UNMUTED,
    /// Fail to create streams on suspended devices, and terminate the stream
    /// if the device suspends.
    PA_STREAM_FAIL_ON_SUSPEND,
    /// Consider this stream's volume relative to the sink's current volume.
    PA_STREAM_RELATIVE_VOLUME,
    /// The stream's data will be rendered by passthrough sinks, and not
    /// reformatted or resampled.
    PA_STREAM_PASSTHROUGH,
}

impl pa_stream_flags_t {
    /// The bit of this flag.
    pub open spec fn spec_bits(self) -> i32 {
        match self {
            pa_stream_flags_t::PA_STREAM_NOFLAGS => 0x0000,
            pa_stream_flags_t::PA_STREAM_START_CORKED => 0x0001,
            pa_stream_flags_t::PA_STREAM_INTERPOLATE_TIMING => 0x0002,
            pa_stream_flags_t::PA_STREAM_NOT_MONOTONIC => 0x0004,
            pa_stream_flags_t::PA_STREAM_AUTO_TIMING_UPDATE => 0x0008,
            pa_stream_flags_t::PA_STREAM_NO_REMAP_CHANNELS => 0x0010,
            pa_stream_flags_t::PA_STREAM_NO_REMIX_CHANNELS => 0x0020,
            pa_stream_flags_t::PA_STREAM_FIX_FORMAT => 0x0040,
            pa_stream_flags_t::PA_STREAM_FIX_RATE => 0x0080,
            pa_stream_flags_t::PA_STREAM_FIX_CHANNELS => 0x0100,
            pa_stream_flags_t::PA_STREAM_DONT_MOVE => 0x0200,
            pa_stream_flags_t::PA_STREAM_VARIABLE_RATE => 0x0400,
            pa_stream_flags_t::PA_STREAM_PEAK_DETECT => 0x0800,
            pa_stream_flags_t::PA_STREAM_START_MUTED => 0x1000,
            pa_stream_flags_t::PA_STREAM_ADJUST_LATENCY => 0x2000,
            pa_stream_flags_t::PA_STREAM_EARLY_REQUESTS => 0x4000,
            pa_stream_flags_t::PA_STREAM_DONT_INHIBIT_AUTO_SUSPEND => 0x8000,
            pa_stream_flags_t::PA_STREAM_START_UNMUTED => 0x10000,
            pa_stream_flags_t::PA_STREAM_FAIL_ON_SUSPEND => 0x20000,
            pa_stream_flags_t::PA_STREAM_RELATIVE_VOLUME => 0x40000,
            pa_stream_flags_t::PA_STREAM_PASSTHROUGH => 0x80000,
        }
    }

    /// The bit of this flag.
    pub fn bits(self) -> (raw: i32)
        ensures
            raw == self.spec_bits(),
    {
        match self {
            pa_stream_flags_t::PA_STREAM_NOFLAGS => 0x0000,
            pa_stream_flags_t::PA_STREAM_START_CORKED => 0x0001,
            pa_stream_flags_t::PA_STREAM_INTERPOLATE_TIMING => 0x0002,
            pa_stream_flags_t::PA_STREAM_NOT_MONOTONIC => 0x0004,
            pa_stream_flags_t::PA_STREAM_AUTO_TIMING_UPDATE => 0x0008,
            pa_stream_flags_t::PA_STREAM_NO_REMAP_CHANNELS => 0x0010,
            pa_stream_flags_t::PA_STREAM_NO_REMIX_CHANNELS => 0x0020,
            pa_stream_flags_t::PA_STREAM_FIX_FORMAT => 0x0040,
            pa_stream_flags_t::PA_STREAM_FIX_RATE => 0x0080,
            pa_stream_flags_t::PA_STREAM_FIX_CHANNELS => 0x0100,
            pa_stream_flags_t::PA_STREAM_DONT_MOVE => 0x0200,
            pa_stream_flags_t::PA_STREAM_VARIABLE_RATE => 0x0400,
            pa_stream_flags_t::PA_STREAM_PEAK_DETECT => 0x0800,
            pa_stream_flags_t::PA_STREAM_START_MUTED => 0x1000,
            pa_stream_flags_t::PA_STREAM_ADJUST_LATENCY => 0x2000,
            pa_stream_flags_t::PA_STREAM_EARLY_REQUESTS => 0x4000,
            pa_stream_flags_t::PA_STREAM_DONT_INHIBIT_AUTO_SUSPEND => 0x8000,
            pa_stream_flags_t::PA_STREAM_START_UNMUTED => 0x10000,
            pa_stream_flags_t::PA_STREAM_FAIL_ON_SUSPEND => 0x20000,
            pa_stream_flags_t::PA_STREAM_RELATIVE_VOLUME => 0x40000,
            pa_stream_flags_t::PA_STREAM_PASSTHROUGH => 0x80000,
        }
    }
}

/// The place of a channel among the speakers.
#[allow(non_camel_case_types)]
#[derive(Clone, Copy, Debug, PartialEq, Eq, Structural)]
pub enum pa_channel_position_t {
    INVALID,
    MONO,
    FRONT_LEFT,
    FRONT_RIGHT,
    FRONT_CENTER,
    REAR_CENTER,
    REAR_LEFT,
    REAR_RIGHT,
    LFE,
    FRONT_LEFT_OF_CENTER,
    FRONT_RIGHT_OF_CENTER,
    SIDE_LEFT,
    SIDE_RIGHT,
    AUX0,
    AUX1,
    AUX2,
    AUX3,
    AUX4,
    AUX5,
    AUX6,
    AUX7,
    AUX8,
    AUX9,
    AUX10,
    AUX11,
    AUX12,
    AUX13,
    AUX14,
    AUX15,
    AUX16,
    AUX17,
    AUX18,
    AUX19,
    AUX20,
    AUX21,
    AUX22,
    AUX23,
    AUX24,
    AUX25,
    AUX26,
    AUX27,
    AUX28,
    AUX29,
    AUX30,
    AUX31,
    TOP_CENTER,
    TOP_FRONT_LEFT,
    TOP_FRONT_RIGHT,
    TOP_FRONT_CENTER,
    TOP_REAR_LEFT,
    TOP_REAR_RIGHT,
    TOP_REAR_CENTER,
    MAX,
}

/// The volume of each channel of a sink.
#[allow(non_camel_case_types)]
#[derive(Clone, Copy, Debug, PartialEq, Eq)]
pub struct pa_cvolume {
    /// How many of the values count.
    pub channels: u8,
    pub values: [u32; 32],
}

/// The place of each channel of a stream.
#[allow(non_camel_case_types)]
#[derive(Clone, Copy, Debug, PartialEq, Eq)]
pub struct pa_channel_map {
    /// How many of the values count.
    pub channels: u8,
    pub values: [pa_channel_position_t; 32],
}

/// The format of a stream of samples.
#[allow(non_camel_case_types)]
#[derive(Clone, Copy, Debug, PartialEq, Eq, Structural)]
pub struct pa_sample_spec {
    /// The format of one sample.
    pub format: pa_sample_format,
    /// Samples per second of one channel.
    pub rate: u32,
    /// The number of channels.
    pub channels: u8,
}

impl pa_sample_spec {
    /// How many bytes the samples of one instant take, all channels
    /// together.
    pub open spec fn spec_frame_size(self) -> nat {
        self.format.spec_sample_size() * (self.channels as nat)
    }

    /// How many bytes the samples of one instant take, all channels
    /// together.
    pub fn frame_size(&self) -> (bytes: usize)
        ensures
            bytes == self.spec_frame_size(),
    {
        let one: usize = self.format.sample_size();
        assert(one * self.channels <= 4 * 255) by (nonlinear_arith)
            requires
                0 <= one <= 4,
                0 <= self.channels <= 255,
        ;
        one * (self.channels as usize)
    }
}

/// The size of the buffers of a stream, in bytes.
#[allow(non_camel_case_types)]
#[derive(Clone, Copy, Debug, PartialEq, Eq, Structural)]
pub struct pa_buffer_attr {
    pub max_length: u32,
    pub tlength: u32,
    pub prebuf: u32,
    pub minreq: u32,
    pub fragsize: u32,
}

/// The kind of format that a sink takes.
#[allow(non_camel_case_types)]
#[derive(Clone, Copy, Debug, PartialEq, Eq, Structural)]
pub struct pa_format_info {
    pub encoding: pa_encoding_t,
}

/// What the server says of itself.
#[allow(non_camel_case_types)]
#[derive(Clone, Debug, PartialEq, Eq)]
pub struct pa_server_info {
    pub user_name: String,
    pub host_name: String,
    pub server_version: String,
    pub server_name: String,
    pub sample_spec: pa_sample_spec,
    pub default_sink_name: String,
    pub default_source_name: String,
    pub cookie: u32,
}

impl pa_server_info {
    pub fn get_user_name(&self) -> (name: &str)
        ensures
            name@ == self.user_name@,
    {
        self.user_name.as_str()
    }

    pub fn get_host_name(&self) -> (name: &str)
        ensures
            name@ == self.host_name@,
    {
        self.host_name.as_str()
    }

    pub fn get_server_version(&self) -> (version: &str)
        ensures
            version@ == self.server_version@,
    {
        self.server_version.as_str()
    }

    pub fn get_server_name(&self) -> (name: &str)
        ensures
            name@ == self.server_name@,
    {
        self.server_name.as_str()
    }

    /// The name of the sink that plays what no one has sent elsewhere: the
    /// active output device.
    pub fn get_default_sink_name(&self) -> (name: &str)
        ensures
            name@ == self.default_sink_name@,
    {
        self.default_sink_name.as_str()
    }

    pub fn get_default_source_name(&self) -> (name: &str)
        ensures
            name@ == self.default_source_name@,
    {
        self.default_source_name.as_str()
    }
}

/// What the server says of a sink.
#[allow(non_camel_case_types)]
#[derive(Clone, Debug, PartialEq, Eq)]
pub struct pa_sink_info {
    /// Name of the sink.
    pub name: String,
    /// Index of the sink.
    pub index: u32,
    /// Description of this sink.
    pub description: String,
    /// Sample spec of this sink.
    pub sample_spec: pa_sample_spec,
    /// Index of the owning module of this sink.
    pub owner_module: u32,
    /// Mute switch of the sink.
    pub mute: i32,
    /// Index of the monitor source connected to this sink.
    pub monitor_source: u32,
    /// The name of the monitor source.
    pub monitor_source_name: String,
    /// Length of queued audio in the output buffer, in microseconds.
    pub latency: u64,
    /// Driver name.
    pub driver: String,
    /// The latency this device has been configured to, in microseconds.
    pub configured_latency: u64,
    /// The volume that stands for no amplification and no attenuation.
    pub base_volume: u32,
    /// State.
    pub state: pa_sink_state_t,
    /// Number of volume steps for sinks which do not support arbitrary
    /// volumes.
    pub n_volume_steps: u32,
    /// Card index.
    pub card: u32,
}

impl pa_sink_info {
    pub fn get_name(&self) -> (name: &str)
        ensures
            name@ == self.name@,
    {
        self.name.as_str()
    }

    pub fn get_description(&self) -> (description: &str)
        ensures
            description@ == self.description@,
    {
        self.description.as_str()
    }

    /// The name of the source that mirrors what this sink plays.
    pub fn get_monitor_source_name(&self) -> (name: &str)
        ensures
            name@ == self.monitor_source_name@,
    {
        self.monitor_source_name.as_str()
    }

    pub fn get_driver(&self) -> (driver: &str)
        ensures
            driver@ == self.driver@,
    {
        self.driver.as_str()
    }
}

/// `n` is the length of the text that a buffer holds in the manner of C: the
/// bytes before `n` are not zero, and the text ends at a zero byte or, where
/// there is none, at the end of the buffer.
pub open spec fn is_c_str_len(buf: Seq<u8>, n: int) -> bool {
    &&& 0 <= n <= buf.len()
    &&& forall|i: int| 0 <= i < n ==> buf[i] != 0
    &&& (n < buf.len() ==> buf[n] == 0)
}

/// The text that a buffer holds in the manner of C: its bytes up to the
/// first that is zero.
pub open spec fn c_str_text(buf: Seq<u8>) -> Seq<u8>
    decreases buf.len(),
{
    if buf.len() == 0 || buf[0] == 0 {
        Seq::<u8>::empty()
    } else {
        seq![buf[0]] + c_str_text(buf.drop_first())
    }
}

/// The text of a buffer is what lies before the length of its text.
pub proof fn lemma_c_str_text(buf: Seq<u8>, n: int)
    requires
        is_c_str_len(buf, n),
    ensures
        c_str_text(buf) == buf.subrange(0, n),
    decreases buf.len(),
{
    if buf.len() == 0 || buf[0] == 0 {
        assert(n == 0);
        assert(buf.subrange(0, 0) =~= Seq::<u8>::empty());
    } else {
        let rest = buf.drop_first();
        assert(n >= 1);
        assert(is_c_str_len(rest, n - 1)) by {
            assert forall|i: int| 0 <= i < n - 1 implies rest[i] != 0 by {
                assert(rest[i] == buf[i + 1]);
            }
        }
        lemma_c_str_text(rest, n - 1);
        assert(seq![buf[0]] + rest.subrange(0, n - 1) =~= buf.subrange(0, n));
    }
}

/// The length of the text that a buffer holds in the manner of C.
pub fn c_str_len(buf: &[u8]) -> (n: usize)
    ensures
        is_c_str_len(buf@, n as int),
{
    let mut n: usize = 0;
    while n < buf.len() && buf[n] != 0
        invariant
            n <= buf@.len(),
            forall|i: int| 0 <= i < n ==> buf@[i] != 0,
        decreases buf@.len() - n,
    {
        n = n + 1;
    }
    n
}

/// Decodes bytes as UTF-8 with `core::str::from_utf8`, and copies the text
/// out. The contract takes from the documentation of that function that it
/// succeeds exactly on valid UTF-8, and that the text it gives is the one
/// that the bytes encode.
#[verifier::external_body]
fn utf8_text(bytes: &[u8]) -> (text: Option<String>)
    ensures
        match text {
            Some(s) => valid_utf8(bytes@) && s@ == decode_utf8(bytes@),
            None => !valid_utf8(bytes@),
        },
{
    match core::str::from_utf8(bytes) {
        Ok(s) => Some(s.to_string()),
        Err(_) => None,
    }
}

/// Turn a buffer that holds text in the manner of C into a string: the bytes
/// before the first zero byte, decoded as UTF-8. A buffer whose text is no
/// valid UTF-8 gives nothing.
pub fn get_str(c_buf: &[u8]) -> (text: Option<String>)
    ensures
        match text {
            Some(s) => valid_utf8(c_str_text(c_buf@)) && s@ == decode_utf8(c_str_text(c_buf@)),
            None => !valid_utf8(c_str_text(c_buf@)),
        },
{
    let len: usize = c_str_len(c_buf);
    proof {
        lemma_c_str_text(c_buf@, len as int);
    }
    let slice: &[u8] = vstd::slice::slice_subrange(c_buf, 0, len);
    utf8_text(slice)
}

} // verus!
