//! The audio session: the state machine that follows the connection to the
//! audio server and the output device that is active, and keeps one capture
//! stream open on the monitor of that device.
//!
//! The session is driven by the notifications of the server alone. For each
//! notification it says what its owner is to ask of the server next. When
//! the active device changes, the session opens a stream on the new monitor
//! and gives the old one up at once; what still arrives for the old stream
//! is known by its identity and discarded.

use crate::pulse::context::{following, Context};
use crate::pulse::request::{text_of, views, Request, RequestView};
use crate::pulse::stream::{PeekError, PulseAudioStream};
use crate::pulse::subscription_manager::mask_with;
use crate::pulse::types::{
    is_server_change,
    pa_context_flags,
    pa_context_state,
    pa_sample_format,
    pa_sample_spec,
    pa_server_info,
    pa_sink_info,
    pa_stream_flags_t,
    pa_subscription_mask,
    server_changed,
};
use vstd::prelude::*;

verus! {

/// The format of the audio that is captured: 16 bit signed little endian
/// samples, 44,100 of them a second on each of two channels. It is the same
/// for every stream.
pub open spec fn capture_spec() -> pa_sample_spec {
    pa_sample_spec { format: pa_sample_format::PA_SAMPLE_S16LE, rate: 44100, channels: 2 }
}

/// The format of the audio that is captured.
pub fn capture_sample_spec() -> (spec: pa_sample_spec)
    ensures
        spec == capture_spec(),
{
    pa_sample_spec { format: pa_sample_format::PA_SAMPLE_S16LE, rate: 44100, channels: 2 }
}

/// What the server tells the session.
#[derive(Debug, PartialEq, Eq)]
pub enum Notification {
    /// The connection has entered a state.
    State(pa_context_state),
    /// The answer to `GetServerInfo`.
    ServerInfo(pa_server_info),
    /// An answer to `GetSinkInfoByName`: a sink, or nothing at the end of
    /// the list.
    SinkInfo(Option<pa_sink_info>),
    /// An event that was subscribed to, with its code and the index of what
    /// it is about.
    Subscription { event: i32, index: u32 },
    /// Whether a subscription was taken.
    SubscriptionResult(bool),
    /// Data is available on a stream.
    DataAvailable { stream: u64, nbytes: usize },
    /// What a look at the buffer of a stream has shown: the length of the
    /// data, or why there is none.
    Peeked { stream: u64, outcome: Result<usize, PeekError> },
}

/// A notification as the contracts see it: with what the session reads of
/// it.
pub enum NotificationView {
    State(pa_context_state),
    ServerInfo { default_sink_name: Seq<char> },
    SinkInfo { monitor_source_name: Option<Seq<char>> },
    Subscription { event: i32, index: u32 },
    SubscriptionResult(bool),
    DataAvailable { stream: u64, nbytes: usize },
    Peeked { stream: u64, outcome: Result<usize, PeekError> },
}

impl View for Notification {
    type V = NotificationView;

    open spec fn view(&self) -> NotificationView {
        match *self {
            Notification::State(state) => NotificationView::State(state),
            Notification::ServerInfo(info) => NotificationView::ServerInfo {
                default_sink_name: info.default_sink_name@,
            },
            Notification::SinkInfo(info) => NotificationView::SinkInfo {
                monitor_source_name: match info {
                    Some(sink) => Some(sink.monitor_source_name@),
                    None => None,
                },
            },
            Notification::Subscription { event, index } => NotificationView::Subscription {
                event,
                index,
            },
            Notification::SubscriptionResult(success) => NotificationView::SubscriptionResult(
                success,
            ),
            Notification::DataAvailable { stream, nbytes } => NotificationView::DataAvailable {
                stream,
                nbytes,
            },
            Notification::Peeked { stream, outcome } => NotificationView::Peeked {
                stream,
                outcome,
            },
        }
    }
}

/// A session as the contracts see it.
pub struct SessionView {
    /// The state of the connection.
    pub state: pa_context_state,
    /// The name of the active sink, once it is known.
    pub active_sink_name: Option<Seq<char>>,
    /// The name of the source that is captured: the monitor of the active
    /// sink.
    pub active_monitor_source: Option<Seq<char>>,
    /// The identity of the stream that is current.
    pub current_stream: Option<u64>,
    /// The identity that the next stream gets.
    pub next_stream: u64,
    /// The mask of the subscribed facilities.
    pub mask: i32,
    /// The name that the streams of the session get.
    pub stream_name: Seq<char>,
}

impl SessionView {
    /// What holds of a session at all times: a source is captured, and a
    /// stream is current, only while the connection is ready, and the
    /// stream that is current is not the one that is made next.
    pub open spec fn inv(self) -> bool {
        &&& self.active_monitor_source is Some ==> self.state == pa_context_state::READY
        &&& self.current_stream is Some ==> self.state == pa_context_state::READY
        &&& self.current_stream != Some(self.next_stream)
    }

    /// A stream that is not the current one. What is notified of it is out
    /// of date.
    pub open spec fn is_stale(self, stream: u64) -> bool {
        self.current_stream != Some(stream)
    }

    /// The connection has entered a state.
    ///
    /// A session whose connection has failed or was terminated stays as it
    /// is. Else the state is taken note of. On entering `READY` the session
    /// asks for the name of the active sink and subscribes to the events of
    /// the server. In any other state nothing is captured; a state from
    /// which the connection never leaves ends the run loop.
    pub open spec fn on_state(self, state: pa_context_state) -> (SessionView, Seq<RequestView>) {
        if self.state.spec_is_terminal() {
            (self, Seq::<RequestView>::empty())
        } else if state == pa_context_state::READY {
            if self.state == pa_context_state::READY {
                (self, Seq::<RequestView>::empty())
            } else {
                let mask = mask_with(self.mask, pa_subscription_mask::SERVER);
                (
                    SessionView { state, mask, ..self },
                    seq![
                        RequestView::GetServerInfo,
                        RequestView::SetSubscribeCallback,
                        RequestView::Subscribe { mask },
                    ],
                )
            }
        } else {
            (
                SessionView { state, active_monitor_source: None, current_stream: None, ..self },
                if state.spec_is_terminal() {
                    seq![RequestView::Quit]
                } else {
                    Seq::<RequestView>::empty()
                },
            )
        }
    }

    /// The server has said which sink is active: the session asks for what
    /// the server says of that sink.
    pub open spec fn on_server_info(self, default_sink_name: Seq<char>) -> (
        SessionView,
        Seq<RequestView>,
    ) {
        if self.state == pa_context_state::READY {
            (
                SessionView { active_sink_name: Some(default_sink_name), ..self },
                seq![RequestView::GetSinkInfoByName { name: default_sink_name }],
            )
        } else {
            (self, Seq::<RequestView>::empty())
        }
    }

    /// The session turns to a monitor source. A stream that is open is
    /// disconnected and given up, without waiting for the server to
    /// acknowledge it. A new stream is created in the one format that is
    /// captured, its data is asked to be notified, it becomes the current
    /// stream, and it is connected to the source.
    pub open spec fn set_active_sink(self, monitor_source_name: Seq<char>) -> (
        SessionView,
        Seq<RequestView>,
    ) {
        let stream = self.next_stream;
        let opened = seq![
            RequestView::NewStream {
                stream,
                name: self.stream_name,
                spec: capture_spec(),
                map: None,
            },
            RequestView::SetReadCallback { stream },
            RequestView::ConnectRecord {
                stream,
                source: Some(monitor_source_name),
                attr: None,
                flags: pa_stream_flags_t::PA_STREAM_NOFLAGS,
            },
        ];
        (
            SessionView {
                active_monitor_source: Some(monitor_source_name),
                current_stream: Some(stream),
                next_stream: following(stream),
                ..self
            },
            match self.current_stream {
                Some(superseded) => seq![RequestView::Disconnect { stream: superseded }] + opened,
                None => opened,
            },
        )
    }

    /// The server has said what it knows of a sink: the session turns to the
    /// monitor source of the sink. The end of the list changes nothing.
    pub open spec fn on_sink_info(self, monitor_source_name: Option<Seq<char>>) -> (
        SessionView,
        Seq<RequestView>,
    ) {
        match monitor_source_name {
            Some(name) => if self.state == pa_context_state::READY {
                self.set_active_sink(name)
            } else {
                (self, Seq::<RequestView>::empty())
            },
            None => (self, Seq::<RequestView>::empty()),
        }
    }

    /// An event has arrived. Where it says that the configuration of the
    /// server has changed, the session asks anew which sink is active. Any
    /// other event is ignored.
    pub open spec fn on_subscription(self, event: i32) -> (SessionView, Seq<RequestView>) {
        if self.state == pa_context_state::READY && is_server_change(event) {
            (self, seq![RequestView::GetServerInfo])
        } else {
            (self, Seq::<RequestView>::empty())
        }
    }

    /// Data is available on a stream. On the current stream the session has
    /// a look at it. A stale stream is disconnected, and nothing else.
    pub open spec fn on_data_available(self, stream: u64) -> (SessionView, Seq<RequestView>) {
        if self.is_stale(stream) {
            (self, seq![RequestView::Disconnect { stream }])
        } else {
            (self, seq![RequestView::Peek { stream }])
        }
    }

    /// A look at the buffer of a stream has shown something. Data goes to
    /// the analyzer, all of it, and then the fragment is released, once. A
    /// hole brings no samples, but its fragment is released too. An empty
    /// buffer leaves nothing to do. A stale stream is disconnected, and
    /// nothing else.
    pub open spec fn on_peeked(self, stream: u64, outcome: Result<usize, PeekError>) -> (
        SessionView,
        Seq<RequestView>,
    ) {
        if self.is_stale(stream) {
            (self, seq![RequestView::Disconnect { stream }])
        } else {
            match outcome {
                Ok(_) => (
                    self,
                    seq![RequestView::Feed { stream }, RequestView::DropFragment { stream }],
                ),
                Err(PeekError::HoleInInputBuffer(_)) => (
                    self,
                    seq![RequestView::DropFragment { stream }],
                ),
                Err(PeekError::BufferEmpty) => (self, Seq::<RequestView>::empty()),
            }
        }
    }

    /// The session after a notification, and what it asks for in turn.
    pub open spec fn step(self, notification: NotificationView) -> (SessionView, Seq<RequestView>) {
        match notification {
            NotificationView::State(state) => self.on_state(state),
            NotificationView::ServerInfo { default_sink_name } => self.on_server_info(
                default_sink_name,
            ),
            NotificationView::SinkInfo { monitor_source_name } => self.on_sink_info(
                monitor_source_name,
            ),
            NotificationView::Subscription { event, index } => self.on_subscription(event),
            NotificationView::SubscriptionResult(_) => (self, Seq::<RequestView>::empty()),
            NotificationView::DataAvailable { stream, nbytes } => self.on_data_available(stream),
            NotificationView::Peeked { stream, outcome } => self.on_peeked(stream, outcome),
        }
    }
}

/// What holds of a session at all times holds after every notification.
pub proof fn lemma_step_keeps_invariant(v: SessionView, n: NotificationView)
    requires
        v.inv(),
    ensures
        v.step(n).0.inv(),
{
}

/// A session whose connection has failed or was terminated never leaves
/// that state.
pub proof fn lemma_terminal_state_stays(v: SessionView, n: NotificationView)
    requires
        v.state.spec_is_terminal(),
    ensures
        v.step(n).0.state == v.state,
{
}

/// What is notified of a stale stream is discarded: the session stays as it
/// is, and the one thing it asks for is to disconnect that stream. Nothing
/// reaches the analyzer.
pub proof fn lemma_stale_stream_discarded(
    v: SessionView,
    stream: u64,
    nbytes: usize,
    outcome: Result<usize, PeekError>,
)
    requires
        v.is_stale(stream),
    ensures
        v.step(NotificationView::DataAvailable { stream, nbytes }) == (
            v,
            seq![RequestView::Disconnect { stream }],
        ),
        v.step(NotificationView::Peeked { stream, outcome }) == (
            v,
            seq![RequestView::Disconnect { stream }],
        ),
{
}

/// How often a request occurs in a list of requests.
pub open spec fn occurrences(requests: Seq<RequestView>, request: RequestView) -> nat
    decreases requests.len(),
{
    if requests.len() == 0 {
        0
    } else {
        occurrences(requests.drop_last(), request) + if requests.last() == request {
            1nat
        } else {
            0nat
        }
    }
}

/// When a session that has a stream open turns to a monitor source, the old
/// stream is disconnected exactly once, the new stream is connected to the
/// source exactly once, and the old stream is stale from then on.
pub proof fn lemma_switch_supersedes(v: SessionView, monitor_source_name: Seq<char>, old: u64)
    requires
        v.inv(),
        v.current_stream == Some(old),
    ensures
        ({
            let (after, requests) = v.set_active_sink(monitor_source_name);
            &&& after.current_stream == Some(v.next_stream)
            &&& after.active_monitor_source == Some(monitor_source_name)
            &&& after.is_stale(old)
            &&& occurrences(requests, RequestView::Disconnect { stream: old }) == 1
            &&& occurrences(
                requests,
                RequestView::ConnectRecord {
                    stream: v.next_stream,
                    source: Some(monitor_source_name),
                    attr: None,
                    flags: pa_stream_flags_t::PA_STREAM_NOFLAGS,
                },
            ) == 1
            &&& forall|i: int|
                0 <= i < requests.len() ==> requests[i] != (RequestView::Feed { stream: old })
                    && requests[i] != (RequestView::Peek { stream: old })
        }),
{
    let (after, requests) = v.set_active_sink(monitor_source_name);
    let stream = v.next_stream;
    let r0 = RequestView::Disconnect { stream: old };
    let r1 = RequestView::NewStream {
        stream,
        name: v.stream_name,
        spec: capture_spec(),
        map: None,
    };
    let r2 = RequestView::SetReadCallback { stream };
    let r3 = RequestView::ConnectRecord {
        stream,
        source: Some(monitor_source_name),
        attr: None,
        flags: pa_stream_flags_t::PA_STREAM_NOFLAGS,
    };
    assert(requests =~= seq![r0, r1, r2, r3]);
    let s3 = seq![r0, r1, r2];
    let s2 = seq![r0, r1];
    let s1 = seq![r0];
    assert(requests.drop_last() =~= s3);
    assert(s3.drop_last() =~= s2);
    assert(s2.drop_last() =~= s1);
    assert(s1.drop_last() =~= Seq::<RequestView>::empty());
    assert(occurrences(Seq::<RequestView>::empty(), r0) == 0);
    assert(occurrences(s1, r0) == 1);
    assert(occurrences(s2, r0) == 1);
    assert(occurrences(s3, r0) == 1);
    assert(occurrences(Seq::<RequestView>::empty(), r3) == 0);
    assert(occurrences(s1, r3) == 0);
    assert(occurrences(s2, r3) == 0);
    assert(occurrences(s3, r3) == 0);
}

/// The session: the connection, the stream that is current, and what is
/// known of the active output device.
pub struct Session {
    context: Context,
    stream: Option<PulseAudioStream>,
    active_sink_name: Option<String>,
    active_monitor_source: Option<String>,
    stream_name: String,
}

impl View for Session {
    type V = SessionView;

    closed spec fn view(&self) -> SessionView {
        SessionView {
            state: self.context@.state,
            active_sink_name: text_of(self.active_sink_name),
            active_monitor_source: text_of(self.active_monitor_source),
            current_stream: match self.stream {
                Some(stream) => Some(stream.identity()),
                None => None,
            },
            next_stream: self.context@.next_stream,
            mask: self.context@.mask,
            stream_name: self.stream_name@,
        }
    }
}

impl Session {
    /// The stream that is current was not disconnected, and what holds of
    /// a session at all times holds.
    pub closed spec fn wf(&self) -> bool {
        &&& self@.inv()
        &&& match self.stream {
            Some(stream) => !stream.is_stale(),
            None => true,
        }
    }

    /// A well-formed session satisfies the invariant of sessions.
    pub proof fn lemma_wf_inv(&self)
        requires
            self.wf(),
        ensures
            self@.inv(),
    {
    }

    /// A new session: not connected, with no stream and nothing known of
    /// the output devices. `client_name` is the name under which the server
    /// will know the client, `stream_name` the name that its streams get.
    pub fn new(client_name: &str, stream_name: &str) -> (session: Session)
        ensures
            session.wf(),
            session@ == (SessionView {
                state: pa_context_state::UNCONNECTED,
                active_sink_name: None,
                active_monitor_source: None,
                current_stream: None,
                next_stream: 0,
                mask: 0,
                stream_name: stream_name@,
            }),
    {
        Session {
            context: Context::new(client_name),
            stream: None,
            active_sink_name: None,
            active_monitor_source: None,
            stream_name: stream_name.to_owned(),
        }
    }

    /// What to ask for at the start: that the state of the connection be
    /// notified, and then the connection to the default server.
    pub fn start(&mut self) -> (requests: Vec<Request>)
        requires
            old(self).wf(),
        ensures
            final(self).wf(),
            final(self)@ == old(self)@,
            views(requests@) == seq![
                RequestView::SetStateCallback,
                RequestView::Connect { server: None, flags: pa_context_flags::NOAUTOSPAWN },
            ],
    {
        let mut requests: Vec<Request> = Vec::new();
        let first = self.context.set_state_callback();
        requests.push(first);
        let second = self.context.connect(None, pa_context_flags::NOAUTOSPAWN);
        requests.push(second);
        assert(views(requests@) =~= seq![
            RequestView::SetStateCallback,
            RequestView::Connect { server: None, flags: pa_context_flags::NOAUTOSPAWN },
        ]);
        requests
    }

    /// The state of the connection.
    pub fn get_state(&self) -> (state: pa_context_state)
        ensures
            state == self@.state,
    {
        self.context.get_state()
    }

    /// The identity of the stream that is current.
    pub fn get_current_stream(&self) -> (stream: Option<u64>)
        ensures
            stream == self@.current_stream,
    {
        match &self.stream {
            Some(stream) => Some(stream.get_raw_ptr()),
            None => None,
        }
    }

    /// The stream that is current.
    pub fn get_stream(&self) -> (stream: Option<&PulseAudioStream>)
        requires
            self.wf(),
        ensures
            match stream {
                Some(s) => self@.current_stream == Some(s.identity()) && !s.is_stale(),
                None => self@.current_stream is None,
            },
    {
        match &self.stream {
            Some(stream) => Some(stream),
            None => None,
        }
    }

    /// The name of the active sink, once it is known.
    pub fn get_active_sink_name(&self) -> (name: Option<&str>)
        ensures
            match name {
                Some(n) => self@.active_sink_name == Some(n@),
                None => self@.active_sink_name is None,
            },
    {
        match &self.active_sink_name {
            Some(name) => Some(name.as_str()),
            None => None,
        }
    }

    /// The name of the source that is captured.
    pub fn get_active_monitor_source(&self) -> (name: Option<&str>)
        ensures
            match name {
                Some(n) => self@.active_monitor_source == Some(n@),
                None => self@.active_monitor_source is None,
            },
    {
        match &self.active_monitor_source {
            Some(name) => Some(name.as_str()),
            None => None,
        }
    }

    /// The mask of the subscribed facilities.
    pub fn get_mask(&self) -> (mask: i32)
        ensures
            mask == self@.mask,
    {
        self.context.get_mask()
    }

    /// Whether a stream is not the current one.
    pub fn is_stale(&self, stream: u64) -> (stale: bool)
        ensures
            stale == self@.is_stale(stream),
    {
        match &self.stream {
            Some(current) => current.get_raw_ptr() != stream,
            None => true,
        }
    }

    /// Turns to a monitor source: gives up the stream that is open, if any,
    /// and opens one on the source.
    pub fn set_active_sink(&mut self, monitor_source_name: &str) -> (requests: Vec<Request>)
        requires
            old(self).wf(),
            old(self)@.state == pa_context_state::READY,
        ensures
            final(self).wf(),
            final(self)@ == old(self)@.set_active_sink(monitor_source_name@).0,
            views(requests@) == old(self)@.set_active_sink(monitor_source_name@).1,
    {
        let mut requests: Vec<Request> = Vec::new();
        match self.stream {
            Some(mut superseded) => {
                let disconnect = superseded.disconnect();
                requests.push(disconnect);
            },
            None => {},
        }
        let spec = capture_sample_spec();
        let (mut stream, create) = self.context.create_stream(self.stream_name.as_str(), &spec, None);
        requests.push(create);
        let callback = stream.set_read_callback();
        requests.push(callback);
        match stream.connect_record(Some(monitor_source_name), None, None) {
            Some(connect) => {
                requests.push(connect);
            },
            None => {},
        }
        self.stream = Some(stream);
        self.active_monitor_source = Some(monitor_source_name.to_owned());
        assert(views(requests@) =~= old(self)@.set_active_sink(monitor_source_name@).1);
        requests
    }

    /// Takes a notification of the server, and gives what to ask of the
    /// server in turn, in order.
    pub fn handle(&mut self, notification: Notification) -> (requests: Vec<Request>)
        requires
            old(self).wf(),
        ensures
            final(self).wf(),
            final(self)@ == old(self)@.step(notification@).0,
            views(requests@) == old(self)@.step(notification@).1,
    {
        let mut requests: Vec<Request> = Vec::new();
        assert(views(requests@) =~= Seq::<RequestView>::empty());
        match notification {
            Notification::State(state) => {
                if self.context.get_state().is_terminal() {
                } else if state.is_ready() {
                    if self.context.get_state().is_ready() {
                    } else {
                        let _ = self.context.state_callback(state);
                        let info = self.context.get_server_info();
                        requests.push(info);
                        let callback = self.context.set_event_callback();
                        requests.push(callback);
                        let subscribe = self.context.add_subscription(pa_subscription_mask::SERVER);
                        requests.push(subscribe);
                        assert(views(requests@) =~= old(self)@.on_state(state).1);
                    }
                } else {
                    let _ = self.context.state_callback(state);
                    self.stream = None;
                    self.active_monitor_source = None;
                    if state.is_terminal() {
                        requests.push(Request::Quit);
                    }
                    assert(views(requests@) =~= old(self)@.on_state(state).1);
                }
            },
            Notification::ServerInfo(info) => {
                if self.context.get_state().is_ready() {
                    let name: &str = info.get_default_sink_name();
                    let ask = self.context.get_sink_info_by_name(name);
                    requests.push(ask);
                    self.active_sink_name = Some(name.to_owned());
                    assert(views(requests@) =~= old(self)@.on_server_info(name@).1);
                }
            },
            Notification::SinkInfo(info) => {
                match info {
                    Some(sink) => {
                        if self.context.get_state().is_ready() {
                            requests = self.set_active_sink(sink.get_monitor_source_name());
                        }
                    },
                    None => {},
                }
            },
            Notification::Subscription { event, index } => {
                if self.context.get_state().is_ready() && server_changed(event) {
                    let info = self.context.get_server_info();
                    requests.push(info);
                    assert(views(requests@) =~= seq![RequestView::GetServerInfo]);
                }
            },
            Notification::SubscriptionResult(_) => {},
            Notification::DataAvailable { stream, nbytes } => {
                if self.is_stale(stream) {
                    requests.push(Request::Disconnect { stream });
                    assert(views(requests@) =~= seq![RequestView::Disconnect { stream }]);
                } else {
                    requests.push(Request::Peek { stream });
                    assert(views(requests@) =~= seq![RequestView::Peek { stream }]);
                }
            },
            Notification::Peeked { stream, outcome } => {
                if self.is_stale(stream) {
                    requests.push(Request::Disconnect { stream });
                    assert(views(requests@) =~= seq![RequestView::Disconnect { stream }]);
                } else {
                    match outcome {
                        Ok(_) => {
                            requests.push(Request::Feed { stream });
                            requests.push(Request::DropFragment { stream });
                            assert(views(requests@) =~= seq![
                                RequestView::Feed { stream },
                                RequestView::DropFragment { stream },
                            ]);
                        },
                        Err(PeekError::HoleInInputBuffer(_)) => {
                            requests.push(Request::DropFragment { stream });
                            assert(views(requests@) =~= seq![RequestView::DropFragment { stream }]);
                        },
                        Err(PeekError::BufferEmpty) => {},
                    }
                }
            },
        }
        requests
    }
}

} // verus!
