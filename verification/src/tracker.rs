//! The tracker: per-process configuration plus the orchestration that turns
//! one event into one queued payload — timestamps, a fresh event id, the
//! seeded builder, context attachment, subject merging, the event's own
//! finalize step, and the hand-off to the delivery queue.

use vstd::prelude::*;
use vstd::string::*;
use crate::emitter::Emitter;
use crate::error::Error;
use crate::event::EventBuildable;
use crate::event_id::EventId;
use crate::payload::{
    spec_complete, spec_contexts_schema, ContextData, Payload, PayloadBuilder, SdjView,
    SelfDescribingJson,
};
use crate::subject::{spec_merge, spec_subject_empty, Subject};
use crate::timestamp::Timestamp;

verus! {

/// Fixed per-tracker configuration, set once when the tracker is created.
pub struct TrackerConfig {
    pub platform: String,
    pub version: String,
    pub encode_base_64: bool,
}

/// Tracks events: builds one conformant payload per call and hands it to
/// the delivery queue. All configuration is fixed at creation; only the
/// default subject can be replaced later, through exclusive access.
pub struct Tracker {
    /// Identifies this tracker instance within the application.
    pub namespace: String,
    /// The application id stamped into every payload.
    pub app_id: String,
    /// The delivery queue this tracker hands finished payloads to.
    pub emitter: Emitter,
    /// Fixed platform and version tags.
    pub config: TrackerConfig,
    /// The subject applied to all events; an event-level subject takes
    /// precedence over it, attribute by attribute.
    pub subject: Subject,
}

/// The ghost text of an optional context argument: each entry's view, in
/// order, when a context was supplied at all.
pub open spec fn spec_context_views(c: Option<Vec<SelfDescribingJson>>) -> Option<Seq<SdjView>> {
    match c {
        Some(v) => Some(v@.map_values(|e: SelfDescribingJson| e@)),
        None => None,
    }
}

/// How `track` seeds a builder before the event's own finalize step: the
/// tracker's identity and timing fields, the wrapped context when one was
/// supplied, and the merged subject when the event declares one.
pub open spec fn spec_seeded(
    t: Tracker,
    eid: EventId,
    now: Timestamp,
    context: Option<Seq<SdjView>>,
    event_subject: Option<Subject>,
    b: PayloadBuilder,
) -> bool {
    &&& b.p == Some(t.config.platform)
    &&& b.tv == Some(t.config.version)
    &&& b.eid == Some(eid)
    &&& b.dtm == Some(now)
    &&& b.stm == Some(now)
    &&& b.aid == Some(t.app_id)
    &&& b.ttm is None
    &&& b.e is None
    &&& b.ue_pr is None
    &&& b.structured_event is None
    &&& match context {
        Some(entries) => b.co matches Some(c) && c@.schema == spec_contexts_schema() && c@.entries
            == entries,
        None => b.co is None,
    }
    &&& match event_subject {
        Some(es) => b.subject matches Some(s) && s@ == spec_merge(es@, t.subject@),
        None => b.subject is None,
    }
}

impl Tracker {
    /// A tracker over the given delivery queue. A missing subject means an
    /// empty one: every attribute absent, so nothing extra on the wire.
    /// The platform and version tags are process-wide constants.
    pub fn new(namespace: &str, app_id: &str, emitter: Emitter, subject: Option<Subject>) -> (r:
        Tracker)
        ensures
            r.namespace@ == namespace@,
            r.app_id@ == app_id@,
            r.emitter == emitter,
            r.config.platform@ == "pc"@,
            r.config.version@ == "rust-0.1.0"@,
            r.config.encode_base_64 == false,
            r.subject@ == (match subject {
                Some(s) => s@,
                None => spec_subject_empty(),
            }),
    {
        let own_subject = match subject {
            Some(s) => s,
            None => Subject::default(),
        };
        Tracker {
            namespace: namespace.to_owned(),
            app_id: app_id.to_owned(),
            emitter,
            subject: own_subject,
            config: TrackerConfig {
                platform: String::from_str("pc"),
                version: String::from_str("rust-0.1.0"),
                encode_base_64: false,
            },
        }
    }

    pub fn namespace(&self) -> (r: &str)
        ensures
            r@ == self.namespace@,
    {
        self.namespace.as_str()
    }

    pub fn app_id(&self) -> (r: &str)
        ensures
            r@ == self.app_id@,
    {
        self.app_id.as_str()
    }

    pub fn emitter(&self) -> (r: &Emitter)
        ensures
            r == &self.emitter,
    {
        &self.emitter
    }

    pub fn subject(&self) -> (r: &Subject)
        ensures
            r == &self.subject,
    {
        &self.subject
    }

    /// Exclusive access to the default subject, to replace or update it.
    pub fn subject_mut(&mut self) -> (r: &mut Subject)
        ensures
            *r == old(self).subject,
            final(self).subject == *final(r),
            final(self).namespace == old(self).namespace,
            final(self).app_id == old(self).app_id,
            final(self).emitter == old(self).emitter,
            final(self).config == old(self).config,
    {
        &mut self.subject
    }

    /// Tracks one event: reads the clock once, draws a fresh event id,
    /// seeds a builder with identity and timing fields, attaches the
    /// wrapped context and the merged subject where supplied, lets the
    /// event's finalize step build the payload, and enqueues it. On
    /// success the queue has grown by exactly that payload and the fresh
    /// id is returned; the only failure is an unreadable clock, which
    /// leaves the tracker untouched.
    pub fn track<E: EventBuildable>(
        &mut self,
        event: E,
        context: Option<Vec<SelfDescribingJson>>,
    ) -> (r: Result<EventId, Error>)
        ensures
            match r {
                Ok(eid) => {
                    &&& final(self).namespace == old(self).namespace
                    &&& final(self).app_id == old(self).app_id
                    &&& final(self).config == old(self).config
                    &&& final(self).subject == old(self).subject
                    &&& final(self).emitter.collector_url == old(self).emitter.collector_url
                    &&& final(self).emitter.queue@.len() == old(self).emitter.queue@.len() + 1
                    &&& final(self).emitter.queue@.drop_last() == old(self).emitter.queue@
                    &&& final(self).emitter.queue@.last().eid == eid
                    &&& exists|now: Timestamp, b: PayloadBuilder|
                        {
                            &&& now.millis >= 0
                            &&& #[trigger] spec_seeded(
                                *old(self),
                                eid,
                                now,
                                spec_context_views(context),
                                event.spec_subject(),
                                b,
                            )
                            &&& spec_complete(b)
                            &&& event.spec_built_from(b, final(self).emitter.queue@.last())
                        }
                },
                Err(e) => e == Error::ClockUnavailable && *final(self) == *old(self),
            },
    {
        let now = match crate::clock::now_timestamp() {
            Some(t) => t,
            None => {
                return Err(Error::ClockUnavailable);
            },
        };
        let event_id = EventId::new_random();
        let mut b = Payload::builder()
            .p(self.config.platform.clone())
            .tv(self.config.version.clone())
            .eid(event_id)
            .dtm(now)
            .stm(now)
            .aid(self.app_id.clone());
        let ghost context_views = spec_context_views(context);
        match context {
            Some(entries) => {
                b = b.co(ContextData::new(entries));
            },
            None => {},
        }
        match event.subject() {
            Some(es) => {
                let merged = es.clone().merge(self.subject.clone());
                b = b.subject(merged);
            },
            None => {},
        }
        let ghost seeded = b;
        proof {
            assert(spec_seeded(
                *old(self),
                event_id,
                now,
                context_views,
                event.spec_subject(),
                seeded,
            ));
        }
        let payload = match event.build_payload(b) {
            Ok(pl) => pl,
            Err(e) => {
                proof {
                    assert(false);
                }
                return Err(e);
            },
        };
        let queued = self.emitter.add(payload);
        proof {
            assert(self.emitter.queue@.drop_last() =~= old(self).emitter.queue@);
        }
        match queued {
            Ok(_) => Ok(event_id),
            Err(e) => {
                proof {
                    assert(false);
                }
                Err(e)
            },
        }
    }
}

} // verus!
