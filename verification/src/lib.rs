//! Server-Sent Events: event records, their `text/event-stream` encoding,
//! the keep-alive merge rules and the header helpers.

use vstd::prelude::*;

pub mod event;
pub mod event_lemmas;
pub mod stream;
pub mod stream_lemmas;
pub mod text;
pub mod utils;

pub use event::Event;

verus! {

/// The media type of an event stream.
pub const CONTENT_TYPE_VALUE: &'static str = "text/event-stream";

/// The request header in which a client reports the last identifier it has seen.
pub const LAST_EVENT_ID_HEADER_KEY: &'static str = "Last-Event-ID";

} // verus!
