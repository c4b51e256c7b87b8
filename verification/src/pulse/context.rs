//! The client side of a connection to the audio server: what was asked for,
//! which notifications have someone waiting for them, and which events are
//! subscribed to.

use crate::pulse::request::{owned_text, Request, RequestView};
use crate::pulse::stream::PulseAudioStream;
use crate::pulse::subscription_manager::{mask_with, mask_without, SubscriptionManager};
use crate::pulse::types::{
    pa_channel_map,
    pa_context_flags,
    pa_context_state,
    pa_sample_spec,
    pa_subscription_mask,
};
use vstd::prelude::*;

verus! {

/// A connection as the contracts see it.
pub struct ContextView {
    /// The name under which the client is known to the server.
    pub client_name: Seq<char>,
    /// The state of the connection as it was last notified.
    pub state: pa_context_state,
    /// Whether changes of the state are notified.
    pub state_cb: bool,
    /// Whether someone waits for what the server says of itself.
    pub server_info_cb: bool,
    /// Whether someone waits for what the server says of a sink.
    pub sink_info_cb: bool,
    /// Whether events are notified.
    pub event_cb: bool,
    /// Whether someone waits for the result of a subscription.
    pub context_success_cb: bool,
    /// The mask of the subscribed facilities.
    pub mask: i32,
    /// The identity that the next stream gets.
    pub next_stream: u64,
}

/// The identity that follows an identity. After the greatest comes zero.
pub open spec fn following(id: u64) -> u64 {
    if id == u64::MAX {
        0
    } else {
        (id + 1) as u64
    }
}

/// Whether an answer about a sink is the one that ends the list: it says so
/// itself, or it brings no sink.
pub fn ends_sink_list(eol: i32, has_info: bool) -> (ends: bool)
    ensures
        ends == (eol == 1 || !has_info),
{
    eol == 1 || !has_info
}

/// Whether the result of a subscription says that it was taken: only the
/// code one says so.
pub fn subscription_succeeded(success: i32) -> (taken: bool)
    ensures
        taken == (success == 1),
{
    success == 1
}

/// Represents a connection to an audio server.
pub struct Context {
    client_name: String,
    state: pa_context_state,
    state_cb: bool,
    server_info_cb: bool,
    sink_info_cb: bool,
    event_cb: bool,
    context_success_cb: bool,
    subscriptions: SubscriptionManager,
    next_stream: u64,
}

impl View for Context {
    type V = ContextView;

    closed spec fn view(&self) -> ContextView {
        ContextView {
            client_name: self.client_name@,
            state: self.state,
            state_cb: self.state_cb,
            server_info_cb: self.server_info_cb,
            sink_info_cb: self.sink_info_cb,
            event_cb: self.event_cb,
            context_success_cb: self.context_success_cb,
            mask: self.subscriptions.spec_mask(),
            next_stream: self.next_stream,
        }
    }
}

impl Context {
    /// Get a new context: not connected, with no one waiting for anything
    /// and nothing subscribed to.
    pub fn new(client_name: &str) -> (context: Context)
        ensures
            context@ == (ContextView {
                client_name: client_name@,
                state: pa_context_state::UNCONNECTED,
                state_cb: false,
                server_info_cb: false,
                sink_info_cb: false,
                event_cb: false,
                context_success_cb: false,
                mask: 0,
                next_stream: 0,
            }),
    {
        Context {
            client_name: client_name.to_owned(),
            state: pa_context_state::UNCONNECTED,
            state_cb: false,
            server_info_cb: false,
            sink_info_cb: false,
            event_cb: false,
            context_success_cb: false,
            subscriptions: SubscriptionManager::new(),
            next_stream: 0,
        }
    }

    /// The name under which the client is known to the server.
    pub fn get_client_name(&self) -> (name: &str)
        ensures
            name@ == self@.client_name,
    {
        self.client_name.as_str()
    }

    /// Get the current context state, as it was last notified.
    pub fn get_state(&self) -> (state: pa_context_state)
        ensures
            state == self@.state,
    {
        self.state
    }

    /// The mask of the subscribed facilities.
    pub fn get_mask(&self) -> (mask: i32)
        ensures
            mask == self@.mask,
    {
        self.subscriptions.get_mask()
    }

    /// Set the callback for server state. The state is notified many times.
    /// Nothing else should be asked of the server before it is `READY`.
    pub fn set_state_callback(&mut self) -> (request: Request)
        ensures
            request@ == RequestView::SetStateCallback,
            final(self)@ == (ContextView { state_cb: true, ..old(self)@ }),
    {
        self.state_cb = true;
        Request::SetStateCallback
    }

    /// Connect to the server: to the server of this name, or to the default
    /// server where none is named.
    pub fn connect(&self, server: Option<&str>, flags: pa_context_flags) -> (request: Request)
        ensures
            request@ == (RequestView::Connect {
                server: match server {
                    Some(name) => Some(name@),
                    None => None,
                },
                flags,
            }),
    {
        Request::Connect { server: owned_text(server), flags }
    }

    /// Gets basic information about the server.
    pub fn get_server_info(&mut self) -> (request: Request)
        ensures
            request@ == RequestView::GetServerInfo,
            final(self)@ == (ContextView { server_info_cb: true, ..old(self)@ }),
    {
        self.server_info_cb = true;
        Request::GetServerInfo
    }

    /// Get information about a sink using its name. The server answers as
    /// it does for the list of all sinks: once with the sink, and once more
    /// with nothing, to say that the list has ended.
    pub fn get_sink_info_by_name(&mut self, name: &str) -> (request: Request)
        ensures
            request@ == (RequestView::GetSinkInfoByName { name: name@ }),
            final(self)@ == (ContextView { sink_info_cb: true, ..old(self)@ }),
    {
        self.sink_info_cb = true;
        Request::GetSinkInfoByName { name: name.to_owned() }
    }

    /// Adds an event subscription. The request carries the whole mask: what
    /// was subscribed to before, and the facility that is added.
    pub fn add_subscription(&mut self, mask: pa_subscription_mask) -> (request: Request)
        ensures
            request@ == (RequestView::Subscribe { mask: mask_with(old(self)@.mask, mask) }),
            final(self)@ == (ContextView {
                context_success_cb: true,
                mask: mask_with(old(self)@.mask, mask),
                ..old(self)@
            }),
    {
        self.context_success_cb = true;
        self.subscriptions.add(mask);
        let new_mask: i32 = self.subscriptions.get_mask();
        Request::Subscribe { mask: new_mask }
    }

    /// Removes an event subscription. The request carries the whole mask
    /// that is left.
    pub fn remove_subscription(&mut self, mask: pa_subscription_mask) -> (request: Request)
        ensures
            request@ == (RequestView::Subscribe { mask: mask_without(old(self)@.mask, mask) }),
            final(self)@ == (ContextView {
                context_success_cb: true,
                mask: mask_without(old(self)@.mask, mask),
                ..old(self)@
            }),
    {
        self.context_success_cb = true;
        self.subscriptions.remove(mask);
        let new_mask: i32 = self.subscriptions.get_mask();
        Request::Subscribe { mask: new_mask }
    }

    /// Set the callback for subscriptions: events are notified from then on.
    pub fn set_event_callback(&mut self) -> (request: Request)
        ensures
            request@ == RequestView::SetSubscribeCallback,
            final(self)@ == (ContextView { event_cb: true, ..old(self)@ }),
    {
        self.event_cb = true;
        Request::SetSubscribeCallback
    }

    /// Create an unconnected stream on this server, with the request that
    /// makes the server know of it. The stream gets an identity that no
    /// stream made just before it has.
    ///
    /// `name` is a name for the stream, `ss` the format of its samples and
    /// `map` the places of its channels; without a map the server takes its
    /// default.
    pub fn create_stream(
        &mut self,
        name: &str,
        ss: &pa_sample_spec,
        map: Option<&pa_channel_map>,
    ) -> (r: (PulseAudioStream, Request))
        ensures
            r.0.identity() == old(self)@.next_stream,
            !r.0.is_stale(),
            !r.0.has_read_callback(),
            r.1@ == (RequestView::NewStream {
                stream: old(self)@.next_stream,
                name: name@,
                spec: *ss,
                map: match map {
                    Some(m) => Some(*m),
                    None => None,
                },
            }),
            final(self)@ == (ContextView {
                next_stream: following(old(self)@.next_stream),
                ..old(self)@
            }),
    {
        let id: u64 = self.next_stream;
        self.next_stream = if id == u64::MAX {
            0
        } else {
            id + 1
        };
        let map: Option<pa_channel_map> = match map {
            Some(m) => Some(*m),
            None => None,
        };
        (
            PulseAudioStream::new(id),
            Request::NewStream { stream: id, name: name.to_owned(), spec: *ss, map },
        )
    }

    /// Takes note of a state that the server notified, and says whether
    /// someone is to be told of it.
    pub fn state_callback(&mut self, state: pa_context_state) -> (deliver: bool)
        ensures
            deliver == old(self)@.state_cb,
            final(self)@ == (ContextView { state, ..old(self)@ }),
    {
        self.state = state;
        self.state_cb
    }

    /// Whether someone waits for what the server says of itself.
    pub fn server_info_callback(&self) -> (deliver: bool)
        ensures
            deliver == self@.server_info_cb,
    {
        self.server_info_cb
    }

    /// Whether someone waits for what the server says of a sink.
    pub fn sink_info_callback(&self) -> (deliver: bool)
        ensures
            deliver == self@.sink_info_cb,
    {
        self.sink_info_cb
    }

    /// Whether events are notified.
    pub fn event_callback(&self) -> (deliver: bool)
        ensures
            deliver == self@.event_cb,
    {
        self.event_cb
    }

    /// Whether someone waits for the result of a subscription.
    pub fn subscription_success_callback(&self) -> (deliver: bool)
        ensures
            deliver == self@.context_success_cb,
    {
        self.context_success_cb
    }
}

} // verus!
