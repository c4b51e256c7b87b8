//! What the client side asks of the program that owns the connection to the
//! audio server.
//!
//! Nothing in this library talks to the server. A function that would talk
//! to it gives a `Request` instead, and the owner of the connection carries
//! the request out: one call of the server's client library for each.

use crate::pulse::types::{
    pa_buffer_attr,
    pa_channel_map,
    pa_context_flags,
    pa_sample_spec,
    pa_stream_flags_t,
};
use vstd::prelude::*;

verus! {

/// One thing to do for the owner of the connection.
#[derive(Clone, Debug, PartialEq, Eq)]
pub enum Request {
    /// Have changes of the connection state notified.
    SetStateCallback,
    /// Connect to a server, to the default server where none is named.
    Connect { server: Option<String>, flags: pa_context_flags },
    /// Ask the server what it says of itself.
    GetServerInfo,
    /// Ask the server what it says of the sink of this name.
    GetSinkInfoByName { name: String },
    /// Subscribe to the events of the facilities of this mask.
    Subscribe { mask: i32 },
    /// Have the events that were subscribed to notified.
    SetSubscribeCallback,
    /// Create a stream and know it by the number `stream` from now on.
    NewStream { stream: u64, name: String, spec: pa_sample_spec, map: Option<pa_channel_map> },
    /// Have data that is available on a stream notified.
    SetReadCallback { stream: u64 },
    /// Begin to capture from a source, from the default source where none is
    /// named.
    ConnectRecord {
        stream: u64,
        source: Option<String>,
        attr: Option<pa_buffer_attr>,
        flags: pa_stream_flags_t,
    },
    /// Look at the fragment that is available on a stream.
    Peek { stream: u64 },
    /// Hand the fragment that was looked at to the analyzer, all of it.
    Feed { stream: u64 },
    /// Release the fragment that was looked at.
    DropFragment { stream: u64 },
    /// Tear a stream down.
    Disconnect { stream: u64 },
    /// Leave the run loop: the connection is gone for good.
    Quit,
}

/// A request as the contracts see it: with its texts as sequences of
/// characters.
pub enum RequestView {
    SetStateCallback,
    Connect { server: Option<Seq<char>>, flags: pa_context_flags },
    GetServerInfo,
    GetSinkInfoByName { name: Seq<char> },
    Subscribe { mask: i32 },
    SetSubscribeCallback,
    NewStream { stream: u64, name: Seq<char>, spec: pa_sample_spec, map: Option<pa_channel_map> },
    SetReadCallback { stream: u64 },
    ConnectRecord {
        stream: u64,
        source: Option<Seq<char>>,
        attr: Option<pa_buffer_attr>,
        flags: pa_stream_flags_t,
    },
    Peek { stream: u64 },
    Feed { stream: u64 },
    DropFragment { stream: u64 },
    Disconnect { stream: u64 },
    Quit,
}

/// The text that an optional string holds.
pub open spec fn text_of(text: Option<String>) -> Option<Seq<char>> {
    match text {
        Some(t) => Some(t@),
        None => None,
    }
}

impl View for Request {
    type V = RequestView;

    open spec fn view(&self) -> RequestView {
        match *self {
            Request::SetStateCallback => RequestView::SetStateCallback,
            Request::Connect { server, flags } => RequestView::Connect {
                server: text_of(server),
                flags,
            },
            Request::GetServerInfo => RequestView::GetServerInfo,
            Request::GetSinkInfoByName { name } => RequestView::GetSinkInfoByName { name: name@ },
            Request::Subscribe { mask } => RequestView::Subscribe { mask },
            Request::SetSubscribeCallback => RequestView::SetSubscribeCallback,
            Request::NewStream { stream, name, spec, map } => RequestView::NewStream {
                stream,
                name: name@,
                spec,
                map,
            },
            Request::SetReadCallback { stream } => RequestView::SetReadCallback { stream },
            Request::ConnectRecord { stream, source, attr, flags } => RequestView::ConnectRecord {
                stream,
                source: text_of(source),
                attr,
                flags,
            },
            Request::Peek { stream } => RequestView::Peek { stream },
            Request::Feed { stream } => RequestView::Feed { stream },
            Request::DropFragment { stream } => RequestView::DropFragment { stream },
            Request::Disconnect { stream } => RequestView::Disconnect { stream },
            Request::Quit => RequestView::Quit,
        }
    }
}

/// A list of requests as the contracts see it.
pub open spec fn views(requests: Seq<Request>) -> Seq<RequestView> {
    Seq::new(requests.len(), |i: int| requests[i]@)
}

/// A copy of an optional text.
pub fn owned_text(text: Option<&str>) -> (copy: Option<String>)
    ensures
        match text {
            Some(t) => text_of(copy) == Some(t@),
            None => copy is None,
        },
{
    match text {
        Some(t) => Some(t.to_owned()),
        None => None,
    }
}

} // verus!
