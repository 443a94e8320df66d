//! The event kinds and the capability every trackable event exposes: an
//! optional subject override and a finalize step that fills its own fields
//! into a seeded builder and builds the payload.

use vstd::prelude::*;
use vstd::string::*;
use crate::error::Error;
use crate::json_text::{append_opt_str_field, append_str_field, opt_text, spec_opt_str_field};
use crate::payload::{
    spec_complete, spec_missing_names, spec_unstruct_schema, EventType, Payload, PayloadBuilder,
    SelfDescribingEventData, SelfDescribingJson,
};
use crate::subject::Subject;

verus! {

/// What any event kind must offer: an optional subject of its own, and a
/// finalize step that fills a seeded builder and builds the payload.
pub trait EventBuildable: Sized {
    /// The subject this event declares, if any.
    spec fn spec_subject(&self) -> Option<Subject>;

    /// How the payload built from a seeded builder relates to that builder:
    /// which seeded fields are kept and which event-kind fields are added.
    spec fn spec_built_from(&self, b: PayloadBuilder, pl: Payload) -> bool;

    fn subject(&self) -> (r: Option<&Subject>)
        ensures
            match r {
                Some(s) => self.spec_subject() == Some(*s),
                None => self.spec_subject() is None,
            },
    ;

    /// Fills the builder with this event's fields and builds the payload.
    /// Succeeds exactly when the seeded builder already carries every
    /// required field (event kinds add only optional fields); otherwise the
    /// failure names the missing fields of the seeded builder.
    fn build_payload(self, b: PayloadBuilder) -> (r: Result<Payload, Error>)
        ensures
            match r {
                Ok(pl) => spec_complete(b) && pl.eid == b.eid->0 && self.spec_built_from(b, pl),
                Err(e) => !spec_complete(b) && (e matches Error::MissingFields(names)
                    && names.deep_view() == spec_missing_names(b)),
            },
    ;
}

/// The ghost value of a structured event's flattened wire fields.
pub ghost struct StructuredEventView {
    pub category: Seq<char>,
    pub action: Seq<char>,
    pub label: Option<Seq<char>>,
    pub property: Option<Seq<char>>,
    pub value: Option<Seq<char>>,
}

/// A classic category/action event. Its fields are flattened into the
/// payload's own top-level object under reserved `se_`-prefixed names, so
/// they can never collide with the payload's core fields.
#[derive(Debug)]
pub struct StructuredEvent {
    pub category: String,
    pub action: String,
    pub label: Option<String>,
    pub property: Option<String>,
    /// The numeric value of the event, carried as its decimal wire text.
    pub value: Option<String>,
    /// An event-level subject override; merged over the tracker's subject,
    /// never flattened itself.
    pub subject: Option<Subject>,
}

impl View for StructuredEvent {
    type V = StructuredEventView;

    open spec fn view(&self) -> StructuredEventView {
        StructuredEventView {
            category: self.category@,
            action: self.action@,
            label: opt_text(self.label),
            property: opt_text(self.property),
            value: opt_text(self.value),
        }
    }
}

impl StructuredEvent {
    /// A structured event with the two required fields and nothing else.
    pub fn new(category: &str, action: &str) -> (r: StructuredEvent)
        ensures
            r@.category == category@,
            r@.action == action@,
            r@.label is None,
            r@.property is None,
            r@.value is None,
            r.subject is None,
    {
        StructuredEvent {
            category: category.to_owned(),
            action: action.to_owned(),
            label: None,
            property: None,
            value: None,
            subject: None,
        }
    }
}

/// The flattened wire text of a structured event's fields: category and
/// action always, the rest only when present, in protocol order.
pub open spec fn spec_structured_fields_json(v: StructuredEventView) -> Seq<char> {
    spec_opt_str_field("se_ca"@, Some(v.category)) + spec_opt_str_field("se_ac"@, Some(v.action))
        + spec_opt_str_field("se_la"@, v.label) + spec_opt_str_field("se_pr"@, v.property)
        + spec_opt_str_field("se_va"@, v.value)
}

/// Appends the flattened wire fields of a structured event.
pub fn append_structured_fields(out: &mut String, se: &StructuredEvent)
    ensures
        final(out)@ == old(out)@ + spec_structured_fields_json(se@),
{
    append_str_field(out, "se_ca", se.category.as_str());
    append_str_field(out, "se_ac", se.action.as_str());
    append_opt_str_field(out, "se_la", &se.label);
    append_opt_str_field(out, "se_pr", &se.property);
    append_opt_str_field(out, "se_va", &se.value);
    proof {
        assert(out@ =~= old(out)@ + spec_structured_fields_json(se@));
    }
}

impl EventBuildable for StructuredEvent {
    open spec fn spec_subject(&self) -> Option<Subject> {
        self.subject
    }

    open spec fn spec_built_from(&self, b: PayloadBuilder, pl: Payload) -> bool {
        &&& pl.p == b.p->0
        &&& pl.tv == b.tv->0
        &&& pl.eid == b.eid->0
        &&& pl.dtm == b.dtm->0
        &&& pl.stm == b.stm->0
        &&& pl.ttm == b.ttm
        &&& pl.aid == b.aid->0
        &&& pl.co == b.co
        &&& pl.subject == b.subject
        &&& pl.e == Some(EventType::StructuredEvent)
        &&& pl.ue_pr == b.ue_pr
        &&& pl.structured_event matches Some(se) && se@ == self@ && se.subject == self.subject
    }

    fn subject(&self) -> (r: Option<&Subject>) {
        self.subject.as_ref()
    }

    fn build_payload(self, b: PayloadBuilder) -> (r: Result<Payload, Error>) {
        b.e(EventType::StructuredEvent).structured_event(self).build()
    }
}

/// An event described by a schema/data pair of its own, carried in the
/// payload's double-encoded `ue_pr` envelope.
#[derive(Debug)]
pub struct SelfDescribingEvent {
    /// The schema/data pair describing this event.
    pub event: SelfDescribingJson,
    /// An event-level subject override; merged over the tracker's subject.
    pub subject: Option<Subject>,
}

impl SelfDescribingEvent {
    pub fn new(event: SelfDescribingJson) -> (r: SelfDescribingEvent)
        ensures
            r.event@ == event@,
            r.subject is None,
    {
        SelfDescribingEvent { event, subject: None }
    }
}

impl EventBuildable for SelfDescribingEvent {
    open spec fn spec_subject(&self) -> Option<Subject> {
        self.subject
    }

    open spec fn spec_built_from(&self, b: PayloadBuilder, pl: Payload) -> bool {
        &&& pl.p == b.p->0
        &&& pl.tv == b.tv->0
        &&& pl.eid == b.eid->0
        &&& pl.dtm == b.dtm->0
        &&& pl.stm == b.stm->0
        &&& pl.ttm == b.ttm
        &&& pl.aid == b.aid->0
        &&& pl.co == b.co
        &&& pl.subject == b.subject
        &&& pl.e == Some(EventType::SelfDescribingEvent)
        &&& pl.structured_event == b.structured_event
        &&& pl.ue_pr matches Some(u) && u@.schema == spec_unstruct_schema() && u@.data
            == self.event@
    }

    fn subject(&self) -> (r: Option<&Subject>) {
        self.subject.as_ref()
    }

    fn build_payload(self, b: PayloadBuilder) -> (r: Result<Payload, Error>) {
        b.e(EventType::SelfDescribingEvent).ue_pr(SelfDescribingEventData::new(self.event)).build()
    }
}

} // verus!
