//! A capture stream: what can be asked of it, and what a look at its buffer
//! can show.

use crate::pulse::request::{owned_text, text_of, Request, RequestView};
use crate::pulse::types::{pa_buffer_attr, pa_stream_flags_t};
use vstd::prelude::*;

verus! {

/// Represents what a look at the buffer of a stream shows when it shows no
/// data. Neither is a failure of the stream.
#[derive(Clone, Copy, Debug, PartialEq, Eq, Structural)]
pub enum PeekError {
    /// The input buffer is empty.
    BufferEmpty,
    /// The input buffer contained a hole of this many bytes. The current
    /// fragment should be dropped using `drop_fragment`.
    HoleInInputBuffer(usize),
}

/// What a look at the buffer of a stream shows, from what the server's
/// client library handed back: the data of the current fragment if there is
/// any, and else the length that the library reported, which is that of a
/// hole, or zero where the buffer is empty.
pub open spec fn peeked<'a>(data: Option<&'a [u8]>, nbytes: usize) -> Result<&'a [u8], PeekError> {
    match data {
        Some(bytes) => Ok(bytes),
        None => if nbytes == 0 {
            Err(PeekError::BufferEmpty)
        } else {
            Err(PeekError::HoleInInputBuffer(nbytes))
        },
    }
}

/// The result of the request to capture from a source, from the status code
/// that the server's client library gave: a negative code is an error.
pub fn connect_record_result(code: i32) -> (r: Result<i32, String>)
    ensures
        match r {
            Ok(c) => code >= 0 && c == code,
            Err(message) => code < 0 && message@ == "unknown error"@,
        },
{
    if code < 0 {
        Err("unknown error".to_owned())
    } else {
        Ok(code)
    }
}

/// Represents a stream on the audio server that a source can be captured
/// from.
///
/// A stream is known by its identity, which is only ever compared. Once it
/// was disconnected it is stale: it is never connected again.
#[derive(Clone, Copy, Debug, PartialEq, Eq, Structural)]
pub struct PulseAudioStream {
    /// The number by which the stream is known.
    id: u64,
    /// Whether the stream was disconnected.
    stale: bool,
    /// Whether available data is notified.
    read_cb: bool,
}

impl PulseAudioStream {
    /// The identity of the stream.
    pub closed spec fn identity(&self) -> u64 {
        self.id
    }

    /// Whether the stream was disconnected.
    pub closed spec fn is_stale(&self) -> bool {
        self.stale
    }

    /// Whether available data is notified.
    pub closed spec fn has_read_callback(&self) -> bool {
        self.read_cb
    }

    /// A new stream of this identity, not yet connected to anything.
    pub fn new(id: u64) -> (stream: PulseAudioStream)
        ensures
            stream.identity() == id,
            !stream.is_stale(),
            !stream.has_read_callback(),
    {
        PulseAudioStream { id, stale: false, read_cb: false }
    }

    /// The identity of the stream.
    pub fn get_raw_ptr(&self) -> (id: u64)
        ensures
            id == self.identity(),
    {
        self.id
    }

    /// Whether the stream was disconnected.
    pub fn get_stale(&self) -> (stale: bool)
        ensures
            stale == self.is_stale(),
    {
        self.stale
    }

    /// Return the current fragment of the record stream, given what the
    /// server's client library handed back: the data, if any, and the length
    /// it reported. To get at the next fragment, `drop_fragment` must be
    /// called after peeking.
    pub fn peek<'a>(&self, data: Option<&'a [u8]>, nbytes: usize) -> (r: Result<
        &'a [u8],
        PeekError,
    >)
        ensures
            r == peeked(data, nbytes),
    {
        match data {
            Some(bytes) => Ok(bytes),
            None => {
                if nbytes == 0 {
                    Err(PeekError::BufferEmpty)
                } else {
                    Err(PeekError::HoleInInputBuffer(nbytes))
                }
            },
        }
    }

    /// Drops the current fragment of the record stream. To be called once
    /// after a look that showed data or a hole. It does no harm on a stream
    /// that was disconnected.
    pub fn drop_fragment(&self) -> (request: Request)
        ensures
            request@ == (RequestView::DropFragment { stream: self.identity() }),
    {
        Request::DropFragment { stream: self.id }
    }

    /// Record from a source: the source of this name, or the default source
    /// where none is named. Without `stream_flags` the stream has no flags.
    /// A stream that was disconnected is not connected again: it gives no
    /// request.
    pub fn connect_record(
        &self,
        source_name: Option<&str>,
        buffer_attributes: Option<&pa_buffer_attr>,
        stream_flags: Option<pa_stream_flags_t>,
    ) -> (request: Option<Request>)
        ensures
            match request {
                Some(r) => !self.is_stale() && r@ == (RequestView::ConnectRecord {
                    stream: self.identity(),
                    source: match source_name {
                        Some(name) => Some(name@),
                        None => None,
                    },
                    attr: match buffer_attributes {
                        Some(attr) => Some(*attr),
                        None => None,
                    },
                    flags: match stream_flags {
                        Some(flags) => flags,
                        None => pa_stream_flags_t::PA_STREAM_NOFLAGS,
                    },
                }),
                None => self.is_stale(),
            },
    {
        if self.stale {
            return None;
        }
        let source: Option<String> = owned_text(source_name);
        let attr: Option<pa_buffer_attr> = match buffer_attributes {
            None => None,
            Some(attributes) => Some(*attributes),
        };
        let flags: pa_stream_flags_t = match stream_flags {
            None => pa_stream_flags_t::PA_STREAM_NOFLAGS,
            Some(stream_flags) => stream_flags,
        };
        Some(Request::ConnectRecord { stream: self.id, source, attr, flags })
    }

    /// Disconnect the stream from its source. The stream is stale from then
    /// on. A stream can be disconnected any number of times.
    pub fn disconnect(&mut self) -> (request: Request)
        ensures
            request@ == (RequestView::Disconnect { stream: old(self).identity() }),
            final(self).identity() == old(self).identity(),
            final(self).is_stale(),
            final(self).has_read_callback() == old(self).has_read_callback(),
    {
        self.stale = true;
        Request::Disconnect { stream: self.id }
    }

    /// Sets the read callback: available data is notified from then on.
    pub fn set_read_callback(&mut self) -> (request: Request)
        ensures
            request@ == (RequestView::SetReadCallback { stream: old(self).identity() }),
            final(self).identity() == old(self).identity(),
            final(self).is_stale() == old(self).is_stale(),
            final(self).has_read_callback(),
    {
        self.read_cb = true;
        Request::SetReadCallback { stream: self.id }
    }

    /// What to tell the owner of the read callback, given that data has
    /// become available: whether there is a callback to call at all.
    pub fn read_callback(&self) -> (deliver: bool)
        ensures
            deliver == self.has_read_callback(),
    {
        self.read_cb
    }
}

} // verus!
