//! The payload: the canonical, flat, wire-ready record of one tracked
//! event, its validating builder, and the double-encoded JSON envelopes for
//! self-describing data and context entities.

use vstd::prelude::*;
use vstd::string::*;
use crate::clock::now_timestamp;
use crate::error::Error;
use crate::event::{append_structured_fields, spec_structured_fields_json, StructuredEvent};
use crate::event_id::{spec_event_id_text, EventId};
use crate::json_text::{
    append_json_quoted, append_opt_str_field, spec_json_quoted, spec_opt_str_field,
};
use crate::strutil::push_char;
use crate::subject::{append_subject_fields, spec_subject_fields_json, Subject};
use crate::timestamp::{spec_ts_encode, spec_ts_opt_encode, Timestamp};

verus! {

/// The schema identifier every self-describing event envelope carries.
pub open spec fn spec_unstruct_schema() -> Seq<char> {
    "iglu:com.snowplowanalytics.snowplow/unstruct_event/jsonschema/1-0-0"@
}

/// The schema identifier every context envelope carries.
pub open spec fn spec_contexts_schema() -> Seq<char> {
    "iglu:com.snowplowanalytics.snowplow/contexts/jsonschema/1-0-1"@
}

/// The kind of a tracked event, as its wire discriminator tells it.
#[derive(Clone, Copy, PartialEq, Eq, Structural, Debug)]
pub enum EventType {
    StructuredEvent,
    SelfDescribingEvent,
}

/// The wire code of an event kind.
pub open spec fn spec_event_type_code(e: EventType) -> Seq<char> {
    match e {
        EventType::StructuredEvent => "se"@,
        EventType::SelfDescribingEvent => "ue"@,
    }
}

pub fn event_type_code(e: &EventType) -> (r: &str)
    ensures
        r@ == spec_event_type_code(*e),
{
    match e {
        EventType::StructuredEvent => "se",
        EventType::SelfDescribingEvent => "ue",
    }
}

/// Declares `serde_json::Value`, the outside type carrying arbitrary
/// structured data; opaque here, rendered only through `render_value`.
#[verifier::external_type_specification]
#[verifier::external_body]
pub struct ExValue(serde_json::Value);

/// The canonical JSON text of an arbitrary structured value, as
/// `serde_json` renders it. The shape of that text is not spelled out here;
/// it is a function of the value alone.
pub uninterp spec fn value_json_text(v: serde_json::Value) -> Seq<char>;

/// Relies on `serde_json::to_string` on a `Value`: the canonical JSON text
/// of the value, a function of the value alone (object keys render in a
/// fixed sorted order). Serializing a `Value` cannot fail, since its maps
/// have string keys.
#[verifier::external_body]
fn render_value(v: &serde_json::Value) -> (r: String)
    ensures
        r@ == value_json_text(*v),
{
    serde_json::to_string(v).unwrap_or_default()
}

/// The ghost value of a `SelfDescribingJson`: its schema text and the
/// canonical JSON text of its data.
pub ghost struct SdjView {
    pub schema: Seq<char>,
    pub data: Seq<char>,
}

/// A schema identifier paired with arbitrary structured data conforming to
/// it; used for context entities and self-describing events. The data is
/// opaque to this crate: only its canonical JSON text matters here.
#[derive(Debug)]
pub struct SelfDescribingJson {
    /// A schema path of the form `iglu:{vendor}/{name}/{format}/{version}`.
    pub schema: String,
    /// The custom data, which must conform to the schema named above.
    pub data: serde_json::Value,
}

impl View for SelfDescribingJson {
    type V = SdjView;

    open spec fn view(&self) -> SdjView {
        SdjView { schema: self.schema@, data: value_json_text(self.data) }
    }
}

impl SelfDescribingJson {
    pub fn new(schema: &str, data: serde_json::Value) -> (r: SelfDescribingJson)
        ensures
            r@.schema == schema@,
            r@.data == value_json_text(data),
    {
        SelfDescribingJson { schema: schema.to_owned(), data }
    }
}

/// The JSON object text of one schema/data pair: the schema as a JSON
/// string, the data as its own JSON text.
pub open spec fn spec_sdj_json(v: SdjView) -> Seq<char> {
    "{\"schema\":"@ + spec_json_quoted(v.schema) + ",\"data\":"@ + v.data + "}"@
}

fn append_sdj(out: &mut String, e: &SelfDescribingJson)
    ensures
        final(out)@ == old(out)@ + spec_sdj_json(e@),
{
    out.append("{\"schema\":");
    append_json_quoted(out, e.schema.as_str());
    out.append(",\"data\":");
    let d = render_value(&e.data);
    out.append(d.as_str());
    out.append("}");
    proof {
        assert(out@ =~= old(out)@ + spec_sdj_json(e@));
    }
}

/// The ghost value of a `SelfDescribingEventData` envelope.
pub ghost struct SdedView {
    pub schema: Seq<char>,
    pub data: SdjView,
}

/// The envelope around one self-describing event: the fixed unstruct-event
/// schema wrapped around the event's own schema/data pair. On the wire the
/// whole envelope is rendered to text and carried as a JSON *string*.
#[derive(Debug)]
pub struct SelfDescribingEventData {
    pub schema: String,
    pub data: SelfDescribingJson,
}

impl View for SelfDescribingEventData {
    type V = SdedView;

    open spec fn view(&self) -> SdedView {
        SdedView { schema: self.schema@, data: self.data@ }
    }
}

/// The inner JSON object text of a self-describing event envelope, before
/// it is double-encoded into the payload.
pub open spec fn spec_sded_envelope(v: SdedView) -> Seq<char> {
    "{\"schema\":"@ + spec_json_quoted(v.schema) + ",\"data\":"@ + spec_sdj_json(v.data) + "}"@
}

impl SelfDescribingEventData {
    /// Wraps one schema/data pair; the envelope schema is fixed and never
    /// caller-supplied.
    pub fn new(data: SelfDescribingJson) -> (r: SelfDescribingEventData)
        ensures
            r@.schema == spec_unstruct_schema(),
            r@.data == data@,
    {
        SelfDescribingEventData {
            schema: String::from_str(
                "iglu:com.snowplowanalytics.snowplow/unstruct_event/jsonschema/1-0-0",
            ),
            data,
        }
    }

    /// The envelope rendered to its own JSON text: the first of the two
    /// encoding steps the collector expects.
    pub fn envelope_json(&self) -> (r: String)
        ensures
            r@ == spec_sded_envelope(self@),
    {
        let mut out = String::new();
        out.append("{\"schema\":");
        append_json_quoted(&mut out, self.schema.as_str());
        out.append(",\"data\":");
        append_sdj(&mut out, &self.data);
        out.append("}");
        proof {
            assert(out@ =~= spec_sded_envelope(self@));
        }
        out
    }
}

/// The ghost value of a `ContextData` envelope.
pub ghost struct ContextDataView {
    pub schema: Seq<char>,
    pub entries: Seq<SdjView>,
}

/// The envelope around the context entities of one event: the fixed
/// contexts schema wrapped around an ordered sequence of schema/data pairs.
/// On the wire the whole envelope is rendered to text and carried as a
/// JSON *string*.
#[derive(Debug)]
pub struct ContextData {
    pub schema: String,
    pub data: Vec<SelfDescribingJson>,
}

impl View for ContextData {
    type V = ContextDataView;

    open spec fn view(&self) -> ContextDataView {
        ContextDataView {
            schema: self.schema@,
            entries: self.data@.map_values(|e: SelfDescribingJson| e@),
        }
    }
}

/// The comma-separated JSON texts of a sequence of entries.
pub open spec fn spec_entries_json(entries: Seq<SdjView>) -> Seq<char>
    decreases entries.len(),
{
    if entries.len() == 0 {
        Seq::<char>::empty()
    } else if entries.len() == 1 {
        spec_sdj_json(entries[0])
    } else {
        spec_entries_json(entries.drop_last()) + seq![','] + spec_sdj_json(entries.last())
    }
}

/// The inner JSON object text of a context envelope, before it is
/// double-encoded into the payload.
pub open spec fn spec_context_envelope(v: ContextDataView) -> Seq<char> {
    "{\"schema\":"@ + spec_json_quoted(v.schema) + ",\"data\":["@ + spec_entries_json(v.entries)
        + "]}"@
}

impl ContextData {
    /// Wraps a caller-supplied sequence of entries; the envelope schema is
    /// fixed and never caller-supplied.
    pub fn new(data: Vec<SelfDescribingJson>) -> (r: ContextData)
        ensures
            r@.schema == spec_contexts_schema(),
            r@.entries == data@.map_values(|e: SelfDescribingJson| e@),
    {
        ContextData {
            schema: String::from_str(
                "iglu:com.snowplowanalytics.snowplow/contexts/jsonschema/1-0-1",
            ),
            data,
        }
    }

    /// The envelope rendered to its own JSON text: the first of the two
    /// encoding steps the collector expects.
    pub fn envelope_json(&self) -> (r: String)
        ensures
            r@ == spec_context_envelope(self@),
    {
        let mut out = String::new();
        out.append("{\"schema\":");
        append_json_quoted(&mut out, self.schema.as_str());
        out.append(",\"data\":[");
        let ghost entries = self@.entries;
        let n = self.data.len();
        let mut i: usize = 0;
        while i < n
            invariant
                0 <= i <= n,
                n == self.data.len(),
                entries == self@.entries,
                entries.len() == n,
                out@ == "{\"schema\":"@ + spec_json_quoted(self.schema@) + ",\"data\":["@
                    + spec_entries_json(entries.subrange(0, i as int)),
            decreases n - i,
        {
            if i > 0 {
                push_char(&mut out, ',');
            }
            append_sdj(&mut out, &self.data[i]);
            proof {
                let p = entries.subrange(0, i + 1);
                assert(p.drop_last() =~= entries.subrange(0, i as int));
                assert(p.last() == entries[i as int]);
                assert(entries[i as int] == self.data@[i as int]@);
                assert(out@ =~= "{\"schema\":"@ + spec_json_quoted(self.schema@) + ",\"data\":["@
                    + spec_entries_json(entries.subrange(0, i + 1)));
            }
            i = i + 1;
        }
        out.append("]}");
        proof {
            assert(entries.subrange(0, n as int) =~= entries);
            assert(out@ =~= spec_context_envelope(self@));
        }
        out
    }
}

/// The canonical, flat, wire-ready record of one tracked event. Built only
/// through `PayloadBuilder`; immutable once built.
#[derive(Debug)]
pub struct Payload {
    /// Protocol platform tag.
    pub p: String,
    /// Tracker version tag.
    pub tv: String,
    /// Event identifier, assigned once at track time.
    pub eid: EventId,
    /// Device timestamp.
    pub dtm: Timestamp,
    /// Sent timestamp, fixed at the moment of finalization.
    pub stm: Timestamp,
    /// The true (business) timestamp of the event, if any.
    pub ttm: Option<Timestamp>,
    /// The event-kind discriminator, if any.
    pub e: Option<EventType>,
    /// Application id.
    pub aid: String,
    /// Self-describing event data, double-encoded on the wire.
    pub ue_pr: Option<SelfDescribingEventData>,
    /// Context entities, double-encoded on the wire.
    pub co: Option<ContextData>,
    /// Structured-event fields, flattened into the top-level object.
    pub structured_event: Option<StructuredEvent>,
    /// Subject fields, flattened into the top-level object.
    pub subject: Option<Subject>,
}

/// The optional wire text of an optional event-kind discriminator.
pub open spec fn spec_opt_event_code(o: Option<EventType>) -> Option<Seq<char>> {
    match o {
        Some(e) => Some(spec_event_type_code(e)),
        None => None,
    }
}

/// The full wire JSON object of a payload: one flat object whose core
/// fields appear in protocol order, whose optional fields are omitted
/// entirely when absent, whose envelopes appear as JSON strings holding
/// JSON text, and whose structured-event and subject fields are flattened
/// into the same object.
pub open spec fn spec_payload_json(pl: Payload) -> Seq<char> {
    "{\"p\":"@ + spec_json_quoted(pl.p@) + ",\"tv\":"@ + spec_json_quoted(pl.tv@) + ",\"eid\":"@
        + spec_json_quoted(spec_event_id_text(pl.eid.value)) + ",\"dtm\":"@ + spec_json_quoted(
        spec_ts_encode(pl.dtm),
    ) + ",\"stm\":"@ + spec_json_quoted(spec_ts_encode(pl.stm)) + spec_opt_str_field(
        "ttm"@,
        spec_ts_opt_encode(pl.ttm),
    ) + spec_opt_str_field("e"@, spec_opt_event_code(pl.e)) + ",\"aid\":"@ + spec_json_quoted(
        pl.aid@,
    ) + spec_opt_str_field(
        "ue_pr"@,
        match pl.ue_pr {
            Some(u) => Some(spec_sded_envelope(u@)),
            None => None,
        },
    ) + spec_opt_str_field(
        "co"@,
        match pl.co {
            Some(c) => Some(spec_context_envelope(c@)),
            None => None,
        },
    ) + (match pl.structured_event {
        Some(se) => spec_structured_fields_json(se@),
        None => Seq::<char>::empty(),
    }) + (match pl.subject {
        Some(s) => spec_subject_fields_json(s@),
        None => Seq::<char>::empty(),
    }) + "}"@
}

impl Payload {
    /// A builder with no field set.
    pub fn builder() -> (r: PayloadBuilder)
        ensures
            r == spec_empty_builder(),
    {
        PayloadBuilder {
            p: None,
            tv: None,
            eid: None,
            dtm: None,
            stm: None,
            ttm: None,
            e: None,
            aid: None,
            ue_pr: None,
            co: None,
            structured_event: None,
            subject: None,
        }
    }

    /// Renders the payload to its wire JSON object.
    #[verifier::rlimit(100)]
    pub fn to_json(&self) -> (r: String)
        ensures
            r@ == spec_payload_json(*self),
    {
        let mut out = String::new();
        out.append("{\"p\":");
        append_json_quoted(&mut out, self.p.as_str());
        out.append(",\"tv\":");
        append_json_quoted(&mut out, self.tv.as_str());
        out.append(",\"eid\":");
        let eid_text = self.eid.hyphenated();
        append_json_quoted(&mut out, eid_text.as_str());
        out.append(",\"dtm\":");
        let dtm_text = crate::ts_milliseconds_string::serialize(&self.dtm);
        append_json_quoted(&mut out, dtm_text.as_str());
        out.append(",\"stm\":");
        let stm_text = crate::ts_milliseconds_string::serialize(&self.stm);
        append_json_quoted(&mut out, stm_text.as_str());
        let ttm_text = crate::ts_milliseconds_string_option::serialize(&self.ttm);
        append_opt_str_field(&mut out, "ttm", &ttm_text);
        let e_text: Option<String> = match &self.e {
            Some(et) => Some(event_type_code(et).to_owned()),
            None => None,
        };
        append_opt_str_field(&mut out, "e", &e_text);
        out.append(",\"aid\":");
        append_json_quoted(&mut out, self.aid.as_str());
        let ue_text: Option<String> = match &self.ue_pr {
            Some(u) => Some(u.envelope_json()),
            None => None,
        };
        append_opt_str_field(&mut out, "ue_pr", &ue_text);
        let co_text: Option<String> = match &self.co {
            Some(c) => Some(c.envelope_json()),
            None => None,
        };
        append_opt_str_field(&mut out, "co", &co_text);
        match &self.structured_event {
            Some(se) => append_structured_fields(&mut out, se),
            None => {},
        }
        match &self.subject {
            Some(s) => append_subject_fields(&mut out, s),
            None => {},
        }
        out.append("}");
        proof {
            assert(out@ =~= spec_payload_json(*self));
        }
        out
    }
}

/// Builds a `Payload` field by field. The six required fields must all be
/// set before `build` succeeds; every other field defaults to absent.
pub struct PayloadBuilder {
    pub p: Option<String>,
    pub tv: Option<String>,
    pub eid: Option<EventId>,
    pub dtm: Option<Timestamp>,
    pub stm: Option<Timestamp>,
    pub ttm: Option<Timestamp>,
    pub e: Option<EventType>,
    pub aid: Option<String>,
    pub ue_pr: Option<SelfDescribingEventData>,
    pub co: Option<ContextData>,
    pub structured_event: Option<StructuredEvent>,
    pub subject: Option<Subject>,
}

/// The builder with no field set.
pub open spec fn spec_empty_builder() -> PayloadBuilder {
    PayloadBuilder {
        p: None,
        tv: None,
        eid: None,
        dtm: None,
        stm: None,
        ttm: None,
        e: None,
        aid: None,
        ue_pr: None,
        co: None,
        structured_event: None,
        subject: None,
    }
}

/// Whether every required field of the payload has been set.
pub open spec fn spec_complete(b: PayloadBuilder) -> bool {
    &&& b.p is Some
    &&& b.tv is Some
    &&& b.eid is Some
    &&& b.dtm is Some
    &&& b.stm is Some
    &&& b.aid is Some
}

/// Like `spec_complete`, but not counting `stm`, which `finalise_payload`
/// stamps itself.
pub open spec fn spec_complete_unstamped(b: PayloadBuilder) -> bool {
    &&& b.p is Some
    &&& b.tv is Some
    &&& b.eid is Some
    &&& b.dtm is Some
    &&& b.aid is Some
}

/// The wire names of the required fields still unset, in protocol order.
pub open spec fn spec_missing_names(b: PayloadBuilder) -> Seq<Seq<char>> {
    (if b.p is None {
        seq!["p"@]
    } else {
        Seq::<Seq<char>>::empty()
    }) + (if b.tv is None {
        seq!["tv"@]
    } else {
        Seq::<Seq<char>>::empty()
    }) + (if b.eid is None {
        seq!["eid"@]
    } else {
        Seq::<Seq<char>>::empty()
    }) + (if b.dtm is None {
        seq!["dtm"@]
    } else {
        Seq::<Seq<char>>::empty()
    }) + (if b.stm is None {
        seq!["stm"@]
    } else {
        Seq::<Seq<char>>::empty()
    }) + (if b.aid is None {
        seq!["aid"@]
    } else {
        Seq::<Seq<char>>::empty()
    })
}

/// The payload a complete builder yields: each field moved across, required
/// fields unwrapped.
pub open spec fn spec_built(b: PayloadBuilder) -> Payload {
    Payload {
        p: b.p->0,
        tv: b.tv->0,
        eid: b.eid->0,
        dtm: b.dtm->0,
        stm: b.stm->0,
        ttm: b.ttm,
        e: b.e,
        aid: b.aid->0,
        ue_pr: b.ue_pr,
        co: b.co,
        structured_event: b.structured_event,
        subject: b.subject,
    }
}

impl PayloadBuilder {
    pub fn p(self, v: String) -> (r: PayloadBuilder)
        ensures
            r == (PayloadBuilder { p: Some(v), ..self }),
    {
        PayloadBuilder { p: Some(v), ..self }
    }

    pub fn tv(self, v: String) -> (r: PayloadBuilder)
        ensures
            r == (PayloadBuilder { tv: Some(v), ..self }),
    {
        PayloadBuilder { tv: Some(v), ..self }
    }

    pub fn eid(self, v: EventId) -> (r: PayloadBuilder)
        ensures
            r == (PayloadBuilder { eid: Some(v), ..self }),
    {
        PayloadBuilder { eid: Some(v), ..self }
    }

    pub fn dtm(self, v: Timestamp) -> (r: PayloadBuilder)
        ensures
            r == (PayloadBuilder { dtm: Some(v), ..self }),
    {
        PayloadBuilder { dtm: Some(v), ..self }
    }

    pub fn stm(self, v: Timestamp) -> (r: PayloadBuilder)
        ensures
            r == (PayloadBuilder { stm: Some(v), ..self }),
    {
        PayloadBuilder { stm: Some(v), ..self }
    }

    pub fn ttm(self, v: Timestamp) -> (r: PayloadBuilder)
        ensures
            r == (PayloadBuilder { ttm: Some(v), ..self }),
    {
        PayloadBuilder { ttm: Some(v), ..self }
    }

    pub fn e(self, v: EventType) -> (r: PayloadBuilder)
        ensures
            r == (PayloadBuilder { e: Some(v), ..self }),
    {
        PayloadBuilder { e: Some(v), ..self }
    }

    pub fn aid(self, v: String) -> (r: PayloadBuilder)
        ensures
            r == (PayloadBuilder { aid: Some(v), ..self }),
    {
        PayloadBuilder { aid: Some(v), ..self }
    }

    pub fn ue_pr(self, v: SelfDescribingEventData) -> (r: PayloadBuilder)
        ensures
            r == (PayloadBuilder { ue_pr: Some(v), ..self }),
    {
        PayloadBuilder { ue_pr: Some(v), ..self }
    }

    pub fn co(self, v: ContextData) -> (r: PayloadBuilder)
        ensures
            r == (PayloadBuilder { co: Some(v), ..self }),
    {
        PayloadBuilder { co: Some(v), ..self }
    }

    pub fn structured_event(self, v: StructuredEvent) -> (r: PayloadBuilder)
        ensures
            r == (PayloadBuilder { structured_event: Some(v), ..self }),
    {
        PayloadBuilder { structured_event: Some(v), ..self }
    }

    pub fn subject(self, v: Subject) -> (r: PayloadBuilder)
        ensures
            r == (PayloadBuilder { subject: Some(v), ..self }),
    {
        PayloadBuilder { subject: Some(v), ..self }
    }

    /// Builds the payload. Succeeds exactly when every required field has
    /// been set; otherwise fails naming every missing required field, in
    /// protocol order.
    pub fn build(self) -> (r: Result<Payload, Error>)
        ensures
            match r {
                Ok(pl) => spec_complete(self) && pl == spec_built(self),
                Err(e) => !spec_complete(self) && (e matches Error::MissingFields(names)
                    && names.deep_view() == spec_missing_names(self)),
            },
    {
        let mut missing: Vec<String> = Vec::new();
        if self.p.is_none() {
            missing.push(String::from_str("p"));
        }
        if self.tv.is_none() {
            missing.push(String::from_str("tv"));
        }
        if self.eid.is_none() {
            missing.push(String::from_str("eid"));
        }
        if self.dtm.is_none() {
            missing.push(String::from_str("dtm"));
        }
        if self.stm.is_none() {
            missing.push(String::from_str("stm"));
        }
        if self.aid.is_none() {
            missing.push(String::from_str("aid"));
        }
        if missing.len() > 0 {
            proof {
                assert(missing.deep_view() =~= spec_missing_names(self));
            }
            return Err(Error::MissingFields(missing));
        }
        Ok(
            Payload {
                p: self.p.unwrap(),
                tv: self.tv.unwrap(),
                eid: self.eid.unwrap(),
                dtm: self.dtm.unwrap(),
                stm: self.stm.unwrap(),
                ttm: self.ttm,
                e: self.e,
                aid: self.aid.unwrap(),
                ue_pr: self.ue_pr,
                co: self.co,
                structured_event: self.structured_event,
                subject: self.subject,
            },
        )
    }

    /// Stamps the sent timestamp from the clock at this very moment, then
    /// builds. The sent timestamp of a payload finished this way reflects
    /// the instant of finalization, whatever `stm` held before.
    pub fn finalise_payload(self) -> (r: Result<Payload, Error>)
        ensures
            match r {
                Ok(pl) => spec_complete_unstamped(self) && pl.stm.millis >= 0 && pl == spec_built(
                    PayloadBuilder { stm: Some(pl.stm), ..self },
                ),
                Err(e) => {
                    ||| e == Error::ClockUnavailable
                    ||| (!spec_complete_unstamped(self) && (e matches Error::MissingFields(names)
                        && names.deep_view() == spec_missing_names(
                        PayloadBuilder { stm: Some(Timestamp { millis: 0 }), ..self },
                    )))
                },
            },
    {
        let now = match now_timestamp() {
            Some(t) => t,
            None => {
                return Err(Error::ClockUnavailable);
            },
        };
        self.stm(now).build()
    }
}

} // verus!
