use rusty_bars::pulse::context::{ends_sink_list, subscription_succeeded, Context};
use rusty_bars::pulse::request::Request;
use rusty_bars::pulse::stream::{connect_record_result, PeekError, PulseAudioStream};
use rusty_bars::pulse::subscription_manager::SubscriptionManager;
use rusty_bars::pulse::types::{
    c_str_len, get_str, pa_buffer_attr, pa_context_flags, pa_context_state, pa_encoding_t,
    pa_sample_format, pa_sample_spec, pa_server_info, pa_sink_flags_t, pa_sink_info,
    pa_sink_state_t, pa_stream_direction, pa_stream_flags_t, pa_subscription_event_type,
    pa_subscription_mask, server_changed,
};

fn s16le_stereo() -> pa_sample_spec {
    pa_sample_spec { format: pa_sample_format::PA_SAMPLE_S16LE, rate: 44100, channels: 2 }
}

fn server_info(default_sink: &str) -> pa_server_info {
    pa_server_info {
        user_name: "paul".to_string(),
        host_name: "box".to_string(),
        server_version: "5.0".to_string(),
        server_name: "pulseaudio".to_string(),
        sample_spec: s16le_stereo(),
        default_sink_name: default_sink.to_string(),
        default_source_name: "mic".to_string(),
        cookie: 42,
    }
}

fn sink_info(name: &str, monitor: &str) -> pa_sink_info {
    pa_sink_info {
        name: name.to_string(),
        index: 3,
        description: "Speakers".to_string(),
        sample_spec: s16le_stereo(),
        owner_module: 7,
        mute: 0,
        monitor_source: 4,
        monitor_source_name: monitor.to_string(),
        latency: 0,
        driver: "module-alsa-card.c".to_string(),
        configured_latency: 0,
        base_volume: 65536,
        state: pa_sink_state_t::PA_SINK_RUNNING,
        n_volume_steps: 65537,
        card: 0,
    }
}

#[test]
fn context_states_have_the_numbers_of_the_server() {
    let states = [
        pa_context_state::UNCONNECTED,
        pa_context_state::CONNECTING,
        pa_context_state::AUTHORIZING,
        pa_context_state::SETTING_NAME,
        pa_context_state::READY,
        pa_context_state::FAILED,
        pa_context_state::TERMINATED,
    ];
    for (raw, state) in states.iter().enumerate() {
        assert_eq!(state.as_raw(), raw as i32);
        assert_eq!(pa_context_state::from_raw(raw as i32), Some(*state));
        assert_eq!(state.is_ready(), raw == 4);
        assert_eq!(state.is_terminal(), raw >= 5);
    }
    assert_eq!(pa_context_state::from_raw(7), None);
    assert_eq!(pa_context_state::from_raw(-1), None);
}

#[test]
fn enums_have_the_numbers_of_the_server() {
    assert_eq!(pa_stream_direction::NoDirection.as_raw(), 0);
    assert_eq!(pa_stream_direction::StreamPlayback.as_raw(), 1);
    assert_eq!(pa_stream_direction::StreamRecord.as_raw(), 2);
    assert_eq!(pa_stream_direction::StreamUpload.as_raw(), 3);
    assert_eq!(pa_sample_format::PA_SAMPLE_U8.as_raw(), 0);
    assert_eq!(pa_sample_format::PA_SAMPLE_S16LE.as_raw(), 3);
    assert_eq!(pa_sample_format::PA_SAMPLE_S24_32BE.as_raw(), 12);
    assert_eq!(pa_sample_format::PA_SAMPLE_MAX.as_raw(), 13);
    assert_eq!(pa_sample_format::PA_SAMPLE_INVALID.as_raw(), -1);
    for raw in -1..14 {
        assert_eq!(pa_sample_format::from_raw(raw).as_raw(), raw);
    }
    assert_eq!(pa_sample_format::from_raw(14), pa_sample_format::PA_SAMPLE_INVALID);
    assert_eq!(pa_sample_format::from_raw(-2), pa_sample_format::PA_SAMPLE_INVALID);
    assert_eq!(pa_sink_state_t::PA_SINK_INVALID_STATE.as_raw(), -1);
    assert_eq!(pa_sink_state_t::PA_SINK_RUNNING.as_raw(), 0);
    assert_eq!(pa_sink_state_t::PA_SINK_IDLE.as_raw(), 1);
    assert_eq!(pa_sink_state_t::PA_SINK_SUSPENDED.as_raw(), 2);
    assert_eq!(pa_sink_state_t::PA_SINK_INIT.as_raw(), -2);
    assert_eq!(pa_sink_state_t::PA_SINK_UNLINKED.as_raw(), -3);
    for raw in -3..3 {
        assert_eq!(pa_sink_state_t::from_raw(raw).as_raw(), raw);
    }
    assert_eq!(pa_sink_state_t::from_raw(9), pa_sink_state_t::PA_SINK_INVALID_STATE);
    assert_eq!(pa_encoding_t::PA_ENCODING_ANY.as_raw(), 0);
    assert_eq!(pa_encoding_t::PA_ENCODING_PCM.as_raw(), 1);
    assert_eq!(pa_encoding_t::PA_ENCODING_MAX.as_raw(), 7);
    assert_eq!(pa_encoding_t::PA_ENCODING_INVALID.as_raw(), -1);
    assert_eq!(pa_sink_flags_t::PA_SINK_NOFLAGS.bits(), 0);
    assert_eq!(pa_sink_flags_t::PA_SINK_HW_VOLUME_CTRL.bits(), 1);
    assert_eq!(pa_sink_flags_t::PA_SINK_DYNAMIC_LATENCY.bits(), 0x80);
    assert_eq!(pa_stream_flags_t::PA_STREAM_NOFLAGS.bits(), 0);
    assert_eq!(pa_stream_flags_t::PA_STREAM_START_CORKED.bits(), 1);
    assert_eq!(pa_stream_flags_t::PA_STREAM_PEAK_DETECT.bits(), 0x800);
    assert_eq!(pa_stream_flags_t::PA_STREAM_ADJUST_LATENCY.bits(), 0x2000);
    assert_eq!(pa_stream_flags_t::PA_STREAM_PASSTHROUGH.bits(), 0x80000);
}

#[test]
fn sample_sizes() {
    assert_eq!(pa_sample_format::PA_SAMPLE_U8.sample_size(), 1);
    assert_eq!(pa_sample_format::PA_SAMPLE_S16LE.sample_size(), 2);
    assert_eq!(pa_sample_format::PA_SAMPLE_S24BE.sample_size(), 3);
    assert_eq!(pa_sample_format::PA_SAMPLE_FLOAT32LE.sample_size(), 4);
    assert_eq!(pa_sample_format::PA_SAMPLE_INVALID.sample_size(), 0);
    assert_eq!(s16le_stereo().frame_size(), 4);
    let wide = pa_sample_spec { format: pa_sample_format::PA_SAMPLE_S32LE, rate: 48000, channels: 255 };
    assert_eq!(wide.frame_size(), 1020);
}

#[test]
fn subscription_masks_and_event_codes() {
    assert_eq!(pa_subscription_mask::NULL.bits(), 0);
    assert_eq!(pa_subscription_mask::SINK.bits(), 1);
    assert_eq!(pa_subscription_mask::SOURCE.bits(), 2);
    assert_eq!(pa_subscription_mask::SINK_INPUT.bits(), 4);
    assert_eq!(pa_subscription_mask::SOURCE_OUTPUT.bits(), 8);
    assert_eq!(pa_subscription_mask::MODULE.bits(), 0x10);
    assert_eq!(pa_subscription_mask::CLIENT.bits(), 0x20);
    assert_eq!(pa_subscription_mask::SAMPLE_CACHE.bits(), 0x40);
    assert_eq!(pa_subscription_mask::SERVER.bits(), 0x80);
    assert_eq!(pa_subscription_mask::AUTOLOAD.bits(), 0x100);
    assert_eq!(pa_subscription_mask::CARD.bits(), 0x200);
    assert_eq!(pa_subscription_event_type::SINK.bits(), 0);
    assert_eq!(pa_subscription_event_type::SERVER.bits(), 7);
    assert_eq!(pa_subscription_event_type::CARD.bits(), 9);
    assert_eq!(pa_subscription_event_type::FACILITY_MASK.bits(), 0xf);
    assert_eq!(pa_subscription_event_type::CHANGE.bits(), 0x10);
    assert_eq!(pa_subscription_event_type::REMOVE.bits(), 0x20);
    assert_eq!(pa_subscription_event_type::TYPE_MASK.bits(), 0x30);
}

#[test]
fn only_a_change_of_the_server_counts_as_server_change() {
    assert!(server_changed(0x17));
    assert!(server_changed(0x17 | 0x100));
    assert!(!server_changed(0x07));
    assert!(!server_changed(0x27));
    assert!(!server_changed(0x37));
    assert!(!server_changed(0x10));
    assert!(!server_changed(0x12));
    assert!(!server_changed(0x19));
    assert!(!server_changed(0));
}

#[test]
fn subscription_manager_sets_and_clears_bits() {
    let mut subs = SubscriptionManager::new();
    assert_eq!(subs.get_mask(), 0);
    assert!(!subs.is_enabled(pa_subscription_mask::SERVER));
    assert!(subs.is_enabled(pa_subscription_mask::NULL));
    subs.add(pa_subscription_mask::SERVER);
    assert_eq!(subs.get_mask(), 0x80);
    assert!(subs.is_enabled(pa_subscription_mask::SERVER));
    assert!(!subs.is_enabled(pa_subscription_mask::SINK));
    subs.add(pa_subscription_mask::SINK);
    subs.add(pa_subscription_mask::CARD);
    subs.add(pa_subscription_mask::SINK);
    assert_eq!(subs.get_mask(), 0x281);
    subs.remove(pa_subscription_mask::SERVER);
    assert_eq!(subs.get_mask(), 0x201);
    assert!(!subs.is_enabled(pa_subscription_mask::SERVER));
    assert!(subs.is_enabled(pa_subscription_mask::SINK));
    assert!(subs.is_enabled(pa_subscription_mask::CARD));
    subs.remove(pa_subscription_mask::SERVER);
    subs.remove(pa_subscription_mask::NULL);
    assert_eq!(subs.get_mask(), 0x201);
}

#[test]
fn info_getters_give_the_fields() {
    let server = server_info("alsa_output.analog-stereo");
    assert_eq!(server.get_user_name(), "paul");
    assert_eq!(server.get_host_name(), "box");
    assert_eq!(server.get_server_version(), "5.0");
    assert_eq!(server.get_server_name(), "pulseaudio");
    assert_eq!(server.get_default_sink_name(), "alsa_output.analog-stereo");
    assert_eq!(server.get_default_source_name(), "mic");
    let sink = sink_info("alsa_output.analog-stereo", "alsa_output.analog-stereo.monitor");
    assert_eq!(sink.get_name(), "alsa_output.analog-stereo");
    assert_eq!(sink.get_description(), "Speakers");
    assert_eq!(sink.get_monitor_source_name(), "alsa_output.analog-stereo.monitor");
    assert_eq!(sink.get_driver(), "module-alsa-card.c");
}

#[test]
fn c_strings_end_at_the_first_zero() {
    assert_eq!(c_str_len(b"abc\0def\0"), 3);
    assert_eq!(c_str_len(b"abc"), 3);
    assert_eq!(c_str_len(b"\0abc"), 0);
    assert_eq!(c_str_len(b""), 0);
    assert_eq!(get_str(b"alsa_output.monitor\0junk"), Some("alsa_output.monitor".to_string()));
    assert_eq!(get_str(b"no terminator"), Some("no terminator".to_string()));
    assert_eq!(get_str(b"\0"), Some(String::new()));
    assert_eq!(get_str(b""), Some(String::new()));
}

#[test]
fn c_strings_are_decoded_as_utf8() {
    assert_eq!(get_str(&[0x68, 0xc3, 0xa9, 0x21, 0x00]), Some("h\u{e9}!".to_string()));
    assert_eq!(get_str(&[0xe2, 0x82, 0xac, 0x00, 0xff]), Some("\u{20ac}".to_string()));
    assert_eq!(get_str(&[0xf0, 0x9f, 0x8e, 0xb5]), Some("\u{1f3b5}".to_string()));
    assert_eq!(get_str(&[0x61, 0xff, 0x00]), None);
    assert_eq!(get_str(&[0xc3, 0x00, 0xa9]), None);
    assert_eq!(get_str(&[0xc0, 0xaf, 0x00]), None);
    assert_eq!(get_str(&[0xed, 0xa0, 0x80, 0x00]), None);
    assert_eq!(get_str(&[0x00, 0xff, 0xff]), Some(String::new()));
}

#[test]
fn peek_tells_data_from_hole_from_nothing() {
    let stream = PulseAudioStream::new(9);
    let bytes = [1u8, 2, 3];
    assert_eq!(stream.peek(Some(&bytes), 3), Ok(&bytes[..]));
    assert_eq!(stream.peek(Some(&bytes[0..0]), 0), Ok(&bytes[0..0]));
    assert_eq!(stream.peek(None, 0), Err(PeekError::BufferEmpty));
    assert_eq!(stream.peek(None, 128), Err(PeekError::HoleInInputBuffer(128)));
    assert_eq!(stream.peek(None, 1), Err(PeekError::HoleInInputBuffer(1)));
}

#[test]
fn connect_record_fills_in_the_defaults() {
    let stream = PulseAudioStream::new(9);
    assert_eq!(
        stream.connect_record(None, None, None),
        Some(Request::ConnectRecord {
            stream: 9,
            source: None,
            attr: None,
            flags: pa_stream_flags_t::PA_STREAM_NOFLAGS,
        })
    );
    let attr = pa_buffer_attr { max_length: 1, tlength: 2, prebuf: 3, minreq: 4, fragsize: 5 };
    assert_eq!(
        stream.connect_record(Some("a.monitor"), Some(&attr), Some(pa_stream_flags_t::PA_STREAM_PEAK_DETECT)),
        Some(Request::ConnectRecord {
            stream: 9,
            source: Some("a.monitor".to_string()),
            attr: Some(attr),
            flags: pa_stream_flags_t::PA_STREAM_PEAK_DETECT,
        })
    );
}

#[test]
fn connect_record_result_is_an_error_below_zero() {
    assert_eq!(connect_record_result(0), Ok(0));
    assert_eq!(connect_record_result(5), Ok(5));
    assert_eq!(connect_record_result(-1), Err("unknown error".to_string()));
    assert_eq!(connect_record_result(i32::MIN), Err("unknown error".to_string()));
}

#[test]
fn a_disconnected_stream_is_stale_for_good() {
    let mut stream = PulseAudioStream::new(4);
    assert_eq!(stream.get_raw_ptr(), 4);
    assert!(!stream.get_stale());
    assert!(!stream.read_callback());
    assert_eq!(stream.set_read_callback(), Request::SetReadCallback { stream: 4 });
    assert!(stream.read_callback());
    assert_eq!(stream.disconnect(), Request::Disconnect { stream: 4 });
    assert!(stream.get_stale());
    assert_eq!(stream.disconnect(), Request::Disconnect { stream: 4 });
    assert!(stream.get_stale());
    assert_eq!(stream.connect_record(Some("a.monitor"), None, None), None);
    assert_eq!(stream.drop_fragment(), Request::DropFragment { stream: 4 });
    assert_eq!(stream.get_raw_ptr(), 4);
}

#[test]
fn context_builds_its_requests() {
    let mut context = Context::new("rs_client");
    assert_eq!(context.get_client_name(), "rs_client");
    assert_eq!(context.get_state(), pa_context_state::UNCONNECTED);
    assert_eq!(context.get_mask(), 0);
    assert_eq!(context.set_state_callback(), Request::SetStateCallback);
    assert_eq!(
        context.connect(None, pa_context_flags::NOAUTOSPAWN),
        Request::Connect { server: None, flags: pa_context_flags::NOAUTOSPAWN }
    );
    assert_eq!(
        context.connect(Some("tcp:host"), pa_context_flags::NOFAIL),
        Request::Connect { server: Some("tcp:host".to_string()), flags: pa_context_flags::NOFAIL }
    );
    assert_eq!(context.get_server_info(), Request::GetServerInfo);
    assert_eq!(
        context.get_sink_info_by_name("speakers"),
        Request::GetSinkInfoByName { name: "speakers".to_string() }
    );
    assert_eq!(context.set_event_callback(), Request::SetSubscribeCallback);
}

#[test]
fn context_subscriptions_carry_the_whole_mask() {
    let mut context = Context::new("rs_client");
    assert!(!context.subscription_success_callback());
    assert_eq!(context.add_subscription(pa_subscription_mask::SERVER), Request::Subscribe { mask: 0x80 });
    assert!(context.subscription_success_callback());
    assert_eq!(context.add_subscription(pa_subscription_mask::SINK), Request::Subscribe { mask: 0x81 });
    assert_eq!(context.get_mask(), 0x81);
    assert_eq!(context.remove_subscription(pa_subscription_mask::SERVER), Request::Subscribe { mask: 0x01 });
    assert_eq!(context.remove_subscription(pa_subscription_mask::CARD), Request::Subscribe { mask: 0x01 });
    assert_eq!(context.get_mask(), 0x01);
}

#[test]
fn context_gives_each_stream_a_new_identity() {
    let mut context = Context::new("rs_client");
    let spec = s16le_stereo();
    let (first, create) = context.create_stream("viz", &spec, None);
    assert_eq!(first.get_raw_ptr(), 0);
    assert_eq!(
        create,
        Request::NewStream { stream: 0, name: "viz".to_string(), spec, map: None }
    );
    let (second, create) = context.create_stream("viz2", &spec, None);
    assert_eq!(second.get_raw_ptr(), 1);
    assert_eq!(
        create,
        Request::NewStream { stream: 1, name: "viz2".to_string(), spec, map: None }
    );
    assert!(!second.get_stale());
    assert!(!second.read_callback());
}

#[test]
fn context_tells_whether_someone_waits() {
    let mut context = Context::new("rs_client");
    assert!(!context.state_callback(pa_context_state::CONNECTING));
    assert_eq!(context.get_state(), pa_context_state::CONNECTING);
    context.set_state_callback();
    assert!(context.state_callback(pa_context_state::READY));
    assert_eq!(context.get_state(), pa_context_state::READY);
    assert!(!context.server_info_callback());
    context.get_server_info();
    assert!(context.server_info_callback());
    assert!(!context.sink_info_callback());
    context.get_sink_info_by_name("x");
    assert!(context.sink_info_callback());
    assert!(!context.event_callback());
    context.set_event_callback();
    assert!(context.event_callback());
}

#[test]
fn sink_list_ends_with_the_flag_or_without_a_sink() {
    assert!(ends_sink_list(1, true));
    assert!(ends_sink_list(1, false));
    assert!(ends_sink_list(0, false));
    assert!(!ends_sink_list(0, true));
    assert!(!ends_sink_list(2, true));
    assert!(subscription_succeeded(1));
    assert!(!subscription_succeeded(0));
    assert!(!subscription_succeeded(2));
}
