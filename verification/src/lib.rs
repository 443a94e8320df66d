//! A verified core for building analytics event payloads for a fixed wire
//! protocol: the payload data model, its validating builder, the millisecond
//! timestamp codec, the double-encoded JSON envelopes, subject merging, and
//! the tracking orchestration that hands finished payloads to a delivery
//! queue.

pub mod clock;
pub mod decimal;
pub mod emitter;
pub mod error;
pub mod event;
pub mod event_id;
pub mod json_text;
pub mod payload;
pub(crate) mod strutil;
pub mod subject;
pub mod tracker;
pub mod timestamp;
pub mod ts_milliseconds_string;
pub mod ts_milliseconds_string_option;

pub use emitter::Emitter;
pub use error::Error;
pub use event::{EventBuildable, SelfDescribingEvent, StructuredEvent};
pub use event_id::EventId;
pub use payload::{
    ContextData, EventType, Payload, PayloadBuilder, SelfDescribingEventData, SelfDescribingJson,
};
pub use subject::{Subject, SubjectBuilder};
pub use timestamp::Timestamp;
pub use tracker::{Tracker, TrackerConfig};
