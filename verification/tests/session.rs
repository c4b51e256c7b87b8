use rusty_bars::pulse::request::Request;
use rusty_bars::pulse::stream::PeekError;
use rusty_bars::pulse::types::{
    pa_context_flags, pa_context_state, pa_sample_format, pa_sample_spec, pa_server_info,
    pa_sink_info, pa_sink_state_t, pa_stream_flags_t,
};
use rusty_bars::session::{capture_sample_spec, Notification, Session};

fn spec() -> pa_sample_spec {
    pa_sample_spec { format: pa_sample_format::PA_SAMPLE_S16LE, rate: 44100, channels: 2 }
}

fn server(default_sink: &str) -> Notification {
    Notification::ServerInfo(pa_server_info {
        user_name: "paul".to_string(),
        host_name: "box".to_string(),
        server_version: "5.0".to_string(),
        server_name: "pulseaudio".to_string(),
        sample_spec: spec(),
        default_sink_name: default_sink.to_string(),
        default_source_name: "mic".to_string(),
        cookie: 1,
    })
}

fn sink(name: &str, monitor: &str) -> Notification {
    Notification::SinkInfo(Some(pa_sink_info {
        name: name.to_string(),
        index: 0,
        description: String::new(),
        sample_spec: spec(),
        owner_module: 0,
        mute: 0,
        monitor_source: 1,
        monitor_source_name: monitor.to_string(),
        latency: 0,
        driver: String::new(),
        configured_latency: 0,
        base_volume: 0,
        state: pa_sink_state_t::PA_SINK_IDLE,
        n_volume_steps: 0,
        card: 0,
    }))
}

fn opened(stream: u64, monitor: &str) -> Vec<Request> {
    vec![
        Request::NewStream { stream, name: "capture".to_string(), spec: spec(), map: None },
        Request::SetReadCallback { stream },
        Request::ConnectRecord {
            stream,
            source: Some(monitor.to_string()),
            attr: None,
            flags: pa_stream_flags_t::PA_STREAM_NOFLAGS,
        },
    ]
}

fn ready_session() -> Session {
    let mut session = Session::new("rusty_bars", "capture");
    session.start();
    session.handle(Notification::State(pa_context_state::CONNECTING));
    session.handle(Notification::State(pa_context_state::AUTHORIZING));
    session.handle(Notification::State(pa_context_state::SETTING_NAME));
    session.handle(Notification::State(pa_context_state::READY));
    session
}

fn session_with_stream() -> Session {
    let mut session = ready_session();
    session.handle(server("speakers"));
    session.handle(sink("speakers", "speakers.monitor"));
    session
}

fn count(requests: &Vec<Request>, wanted: &Request) -> usize {
    requests.iter().filter(|request| *request == wanted).count()
}

#[test]
fn capture_format_is_fixed() {
    assert_eq!(capture_sample_spec(), spec());
}

#[test]
fn new_session_knows_nothing() {
    let session = Session::new("rusty_bars", "capture");
    assert_eq!(session.get_state(), pa_context_state::UNCONNECTED);
    assert_eq!(session.get_current_stream(), None);
    assert_eq!(session.get_active_sink_name(), None);
    assert_eq!(session.get_active_monitor_source(), None);
    assert_eq!(session.get_mask(), 0);
    assert!(session.is_stale(0));
}

#[test]
fn start_asks_for_the_state_and_connects() {
    let mut session = Session::new("rusty_bars", "capture");
    assert_eq!(
        session.start(),
        vec![
            Request::SetStateCallback,
            Request::Connect { server: None, flags: pa_context_flags::NOAUTOSPAWN },
        ]
    );
    assert_eq!(session.get_state(), pa_context_state::UNCONNECTED);
}

#[test]
fn states_before_ready_ask_for_nothing() {
    let mut session = Session::new("rusty_bars", "capture");
    for state in [
        pa_context_state::CONNECTING,
        pa_context_state::AUTHORIZING,
        pa_context_state::SETTING_NAME,
    ] {
        assert_eq!(session.handle(Notification::State(state)), vec![]);
        assert_eq!(session.get_state(), state);
    }
}

#[test]
fn entering_ready_resolves_the_sink_and_subscribes() {
    let mut session = Session::new("rusty_bars", "capture");
    session.handle(Notification::State(pa_context_state::CONNECTING));
    assert_eq!(
        session.handle(Notification::State(pa_context_state::READY)),
        vec![
            Request::GetServerInfo,
            Request::SetSubscribeCallback,
            Request::Subscribe { mask: 0x80 },
        ]
    );
    assert_eq!(session.get_state(), pa_context_state::READY);
    assert_eq!(session.get_mask(), 0x80);
    assert_eq!(session.handle(Notification::State(pa_context_state::READY)), vec![]);
    assert_eq!(session.handle(Notification::SubscriptionResult(true)), vec![]);
    assert_eq!(session.handle(Notification::SubscriptionResult(false)), vec![]);
}

#[test]
fn server_info_asks_for_the_sink() {
    let mut session = ready_session();
    assert_eq!(
        session.handle(server("speakers")),
        vec![Request::GetSinkInfoByName { name: "speakers".to_string() }]
    );
    assert_eq!(session.get_active_sink_name(), Some("speakers"));
    assert_eq!(session.get_active_monitor_source(), None);
    assert_eq!(session.get_current_stream(), None);
}

#[test]
fn sink_info_opens_a_stream_on_the_monitor() {
    let mut session = ready_session();
    session.handle(server("speakers"));
    assert_eq!(session.handle(sink("speakers", "speakers.monitor")), opened(0, "speakers.monitor"));
    assert_eq!(session.get_current_stream(), Some(0));
    assert_eq!(session.get_stream().map(|stream| stream.get_raw_ptr()), Some(0));
    assert_eq!(session.get_stream().map(|stream| stream.get_stale()), Some(false));
    assert_eq!(session.get_active_monitor_source(), Some("speakers.monitor"));
    assert!(!session.is_stale(0));
    assert!(session.is_stale(1));
    assert_eq!(session.handle(Notification::SinkInfo(None)), vec![]);
    assert_eq!(session.get_current_stream(), Some(0));
}

#[test]
fn nothing_is_resolved_before_ready() {
    let mut session = Session::new("rusty_bars", "capture");
    session.handle(Notification::State(pa_context_state::CONNECTING));
    assert_eq!(session.handle(server("speakers")), vec![]);
    assert_eq!(session.handle(sink("speakers", "speakers.monitor")), vec![]);
    assert_eq!(session.handle(Notification::Subscription { event: 0x17, index: 0 }), vec![]);
    assert_eq!(session.get_active_sink_name(), None);
    assert_eq!(session.get_active_monitor_source(), None);
    assert_eq!(session.get_current_stream(), None);
}

#[test]
fn only_a_server_change_resolves_the_sink_anew() {
    let mut session = session_with_stream();
    assert_eq!(
        session.handle(Notification::Subscription { event: 0x17, index: 5 }),
        vec![Request::GetServerInfo]
    );
    for event in [0x07, 0x27, 0x10, 0x12, 0x19, 0x00, 0x05] {
        assert_eq!(session.handle(Notification::Subscription { event, index: 5 }), vec![]);
    }
    assert_eq!(session.get_current_stream(), Some(0));
}

#[test]
fn data_on_the_current_stream_is_looked_at() {
    let mut session = session_with_stream();
    assert_eq!(
        session.handle(Notification::DataAvailable { stream: 0, nbytes: 4096 }),
        vec![Request::Peek { stream: 0 }]
    );
    assert_eq!(
        session.handle(Notification::Peeked { stream: 0, outcome: Ok(4096) }),
        vec![Request::Feed { stream: 0 }, Request::DropFragment { stream: 0 }]
    );
    assert_eq!(
        session.handle(Notification::Peeked {
            stream: 0,
            outcome: Err(PeekError::HoleInInputBuffer(64)),
        }),
        vec![Request::DropFragment { stream: 0 }]
    );
    assert_eq!(
        session.handle(Notification::Peeked { stream: 0, outcome: Err(PeekError::BufferEmpty) }),
        vec![]
    );
    assert_eq!(session.get_current_stream(), Some(0));
}

#[test]
fn stale_stream_is_disconnected_and_nothing_else() {
    let mut session = session_with_stream();
    let stale = Request::Disconnect { stream: 7 };
    let requests = session.handle(Notification::DataAvailable { stream: 7, nbytes: 4096 });
    assert_eq!(requests, vec![stale.clone()]);
    assert_eq!(count(&requests, &stale), 1);
    assert_eq!(count(&requests, &Request::Peek { stream: 7 }), 0);
    assert_eq!(count(&requests, &Request::Feed { stream: 7 }), 0);
    assert_eq!(
        session.handle(Notification::Peeked { stream: 7, outcome: Ok(4096) }),
        vec![stale.clone()]
    );
    assert_eq!(session.handle(Notification::DataAvailable { stream: 7, nbytes: 1 }), vec![stale]);
    assert_eq!(session.get_current_stream(), Some(0));
    assert_eq!(session.get_active_monitor_source(), Some("speakers.monitor"));
    assert_eq!(session.get_state(), pa_context_state::READY);
}

#[test]
fn data_without_a_stream_is_stale() {
    let mut session = ready_session();
    assert_eq!(
        session.handle(Notification::DataAvailable { stream: 0, nbytes: 16 }),
        vec![Request::Disconnect { stream: 0 }]
    );
}

#[test]
fn device_switch_supersedes_the_stream() {
    let mut session = session_with_stream();
    let s1 = session.get_current_stream().unwrap();

    let mut requests = session.handle(Notification::Subscription { event: 0x17, index: 0 });
    assert_eq!(requests, vec![Request::GetServerInfo]);
    let asked = session.handle(server("headphones"));
    assert_eq!(asked, vec![Request::GetSinkInfoByName { name: "headphones".to_string() }]);
    requests.extend(asked);
    let switched = session.handle(sink("headphones", "headphones.monitor"));
    let s2 = session.get_current_stream().unwrap();
    assert_ne!(s1, s2);
    let mut expected = vec![Request::Disconnect { stream: s1 }];
    expected.extend(opened(s2, "headphones.monitor"));
    assert_eq!(switched, expected);
    requests.extend(switched);

    assert_eq!(count(&requests, &Request::Disconnect { stream: s1 }), 1);
    assert_eq!(
        count(
            &requests,
            &Request::ConnectRecord {
                stream: s2,
                source: Some("headphones.monitor".to_string()),
                attr: None,
                flags: pa_stream_flags_t::PA_STREAM_NOFLAGS,
            }
        ),
        1
    );
    assert_eq!(session.get_active_sink_name(), Some("headphones"));
    assert_eq!(session.get_active_monitor_source(), Some("headphones.monitor"));

    for _ in 0..3 {
        let late = session.handle(Notification::DataAvailable { stream: s1, nbytes: 512 });
        assert_eq!(late, vec![Request::Disconnect { stream: s1 }]);
        assert_eq!(count(&late, &Request::Feed { stream: s1 }), 0);
        assert_eq!(count(&late, &Request::Peek { stream: s1 }), 0);
    }
    assert_eq!(
        session.handle(Notification::DataAvailable { stream: s2, nbytes: 512 }),
        vec![Request::Peek { stream: s2 }]
    );
}

#[test]
fn failure_ends_the_session() {
    let mut session = session_with_stream();
    assert_eq!(session.handle(Notification::State(pa_context_state::FAILED)), vec![Request::Quit]);
    assert_eq!(session.get_state(), pa_context_state::FAILED);
    assert_eq!(session.get_active_monitor_source(), None);
    assert_eq!(session.get_current_stream(), None);
    assert_eq!(session.handle(Notification::State(pa_context_state::READY)), vec![]);
    assert_eq!(session.handle(Notification::State(pa_context_state::TERMINATED)), vec![]);
    assert_eq!(session.get_state(), pa_context_state::FAILED);
    assert_eq!(session.handle(server("speakers")), vec![]);
    assert_eq!(session.handle(sink("speakers", "speakers.monitor")), vec![]);
    assert_eq!(session.get_current_stream(), None);
    assert_eq!(
        session.handle(Notification::DataAvailable { stream: 0, nbytes: 8 }),
        vec![Request::Disconnect { stream: 0 }]
    );
}

#[test]
fn termination_ends_the_session_from_any_state() {
    let mut session = Session::new("rusty_bars", "capture");
    session.handle(Notification::State(pa_context_state::CONNECTING));
    assert_eq!(
        session.handle(Notification::State(pa_context_state::TERMINATED)),
        vec![Request::Quit]
    );
    assert_eq!(session.get_state(), pa_context_state::TERMINATED);
    assert_eq!(session.handle(Notification::State(pa_context_state::CONNECTING)), vec![]);
    assert_eq!(session.get_state(), pa_context_state::TERMINATED);
}

#[test]
fn set_active_sink_can_be_called_directly() {
    let mut session = ready_session();
    assert_eq!(session.set_active_sink("a.monitor"), opened(0, "a.monitor"));
    let mut expected = vec![Request::Disconnect { stream: 0 }];
    expected.extend(opened(1, "b.monitor"));
    assert_eq!(session.set_active_sink("b.monitor"), expected);
    assert_eq!(session.get_current_stream(), Some(1));
    assert!(session.is_stale(0));
}
