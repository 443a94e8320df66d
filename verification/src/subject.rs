//! The subject: optional attributes of the actor and environment behind an
//! event, with the merge operation that lets an event-level subject override
//! a tracker-level one field by field.

use vstd::prelude::*;
use vstd::string::*;
use crate::error::Error;
use crate::json_text::{append_opt_str_field, opt_text, spec_opt_str_field};
use crate::strutil::clone_opt_string;

verus! {

/// The ghost value of a `Subject`: each attribute as optional text.
pub ghost struct SubjectView {
    pub user_id: Option<Seq<char>>,
    pub ip_address: Option<Seq<char>>,
    pub timezone: Option<Seq<char>>,
    pub language: Option<Seq<char>>,
    pub useragent: Option<Seq<char>>,
    pub domain_user_id: Option<Seq<char>>,
    pub network_user_id: Option<Seq<char>>,
}

/// A bag of optional visitor and environment attributes, each independently
/// present or absent. Absent attributes are omitted from the wire payload.
#[derive(Debug)]
pub struct Subject {
    pub user_id: Option<String>,
    pub ip_address: Option<String>,
    pub timezone: Option<String>,
    pub language: Option<String>,
    pub useragent: Option<String>,
    pub domain_user_id: Option<String>,
    pub network_user_id: Option<String>,
}

impl View for Subject {
    type V = SubjectView;

    open spec fn view(&self) -> SubjectView {
        SubjectView {
            user_id: opt_text(self.user_id),
            ip_address: opt_text(self.ip_address),
            timezone: opt_text(self.timezone),
            language: opt_text(self.language),
            useragent: opt_text(self.useragent),
            domain_user_id: opt_text(self.domain_user_id),
            network_user_id: opt_text(self.network_user_id),
        }
    }
}

/// A subject with every attribute absent.
pub open spec fn spec_subject_empty() -> SubjectView {
    SubjectView {
        user_id: None,
        ip_address: None,
        timezone: None,
        language: None,
        useragent: None,
        domain_user_id: None,
        network_user_id: None,
    }
}

/// Field-wise precedence: every attribute of the merge is the primary's
/// value when present, else the fallback's value, else absent.
pub open spec fn spec_merge(a: SubjectView, b: SubjectView) -> SubjectView {
    SubjectView {
        user_id: if a.user_id is Some {
            a.user_id
        } else {
            b.user_id
        },
        ip_address: if a.ip_address is Some {
            a.ip_address
        } else {
            b.ip_address
        },
        timezone: if a.timezone is Some {
            a.timezone
        } else {
            b.timezone
        },
        language: if a.language is Some {
            a.language
        } else {
            b.language
        },
        useragent: if a.useragent is Some {
            a.useragent
        } else {
            b.useragent
        },
        domain_user_id: if a.domain_user_id is Some {
            a.domain_user_id
        } else {
            b.domain_user_id
        },
        network_user_id: if a.network_user_id is Some {
            a.network_user_id
        } else {
            b.network_user_id
        },
    }
}

impl Clone for Subject {
    fn clone(&self) -> (r: Subject)
        ensures
            r@ == self@,
    {
        Subject {
            user_id: clone_opt_string(&self.user_id),
            ip_address: clone_opt_string(&self.ip_address),
            timezone: clone_opt_string(&self.timezone),
            language: clone_opt_string(&self.language),
            useragent: clone_opt_string(&self.useragent),
            domain_user_id: clone_opt_string(&self.domain_user_id),
            network_user_id: clone_opt_string(&self.network_user_id),
        }
    }
}

impl Default for Subject {
    /// A subject with every attribute absent.
    fn default() -> (r: Subject)
        ensures
            r@ == spec_subject_empty(),
    {
        Subject {
            user_id: None,
            ip_address: None,
            timezone: None,
            language: None,
            useragent: None,
            domain_user_id: None,
            network_user_id: None,
        }
    }
}

impl Subject {
    /// A builder with every attribute absent.
    pub fn builder() -> (r: SubjectBuilder)
        ensures
            r@ == spec_subject_empty(),
    {
        SubjectBuilder {
            user_id: None,
            ip_address: None,
            timezone: None,
            language: None,
            useragent: None,
            domain_user_id: None,
            network_user_id: None,
        }
    }

    /// Merges this subject (the primary) with a fallback: every attribute
    /// takes this subject's value when present, else the fallback's.
    /// Neither input survives, but the result is a pure function of both.
    pub fn merge(self, fallback: Subject) -> (r: Subject)
        ensures
            r@ == spec_merge(self@, fallback@),
    {
        Subject {
            user_id: if self.user_id.is_some() {
                self.user_id
            } else {
                fallback.user_id
            },
            ip_address: if self.ip_address.is_some() {
                self.ip_address
            } else {
                fallback.ip_address
            },
            timezone: if self.timezone.is_some() {
                self.timezone
            } else {
                fallback.timezone
            },
            language: if self.language.is_some() {
                self.language
            } else {
                fallback.language
            },
            useragent: if self.useragent.is_some() {
                self.useragent
            } else {
                fallback.useragent
            },
            domain_user_id: if self.domain_user_id.is_some() {
                self.domain_user_id
            } else {
                fallback.domain_user_id
            },
            network_user_id: if self.network_user_id.is_some() {
                self.network_user_id
            } else {
                fallback.network_user_id
            },
        }
    }
}

/// Builds a `Subject` attribute by attribute. No attribute is required, so
/// building always succeeds.
pub struct SubjectBuilder {
    pub user_id: Option<String>,
    pub ip_address: Option<String>,
    pub timezone: Option<String>,
    pub language: Option<String>,
    pub useragent: Option<String>,
    pub domain_user_id: Option<String>,
    pub network_user_id: Option<String>,
}

impl View for SubjectBuilder {
    type V = SubjectView;

    open spec fn view(&self) -> SubjectView {
        SubjectView {
            user_id: opt_text(self.user_id),
            ip_address: opt_text(self.ip_address),
            timezone: opt_text(self.timezone),
            language: opt_text(self.language),
            useragent: opt_text(self.useragent),
            domain_user_id: opt_text(self.domain_user_id),
            network_user_id: opt_text(self.network_user_id),
        }
    }
}

impl SubjectBuilder {
    pub fn user_id(self, v: &str) -> (r: SubjectBuilder)
        ensures
            r@ == (SubjectView { user_id: Some(v@), ..self@ }),
    {
        SubjectBuilder { user_id: Some(v.to_owned()), ..self }
    }

    pub fn ip_address(self, v: &str) -> (r: SubjectBuilder)
        ensures
            r@ == (SubjectView { ip_address: Some(v@), ..self@ }),
    {
        SubjectBuilder { ip_address: Some(v.to_owned()), ..self }
    }

    pub fn timezone(self, v: &str) -> (r: SubjectBuilder)
        ensures
            r@ == (SubjectView { timezone: Some(v@), ..self@ }),
    {
        SubjectBuilder { timezone: Some(v.to_owned()), ..self }
    }

    pub fn language(self, v: &str) -> (r: SubjectBuilder)
        ensures
            r@ == (SubjectView { language: Some(v@), ..self@ }),
    {
        SubjectBuilder { language: Some(v.to_owned()), ..self }
    }

    pub fn useragent(self, v: &str) -> (r: SubjectBuilder)
        ensures
            r@ == (SubjectView { useragent: Some(v@), ..self@ }),
    {
        SubjectBuilder { useragent: Some(v.to_owned()), ..self }
    }

    pub fn domain_user_id(self, v: &str) -> (r: SubjectBuilder)
        ensures
            r@ == (SubjectView { domain_user_id: Some(v@), ..self@ }),
    {
        SubjectBuilder { domain_user_id: Some(v.to_owned()), ..self }
    }

    pub fn network_user_id(self, v: &str) -> (r: SubjectBuilder)
        ensures
            r@ == (SubjectView { network_user_id: Some(v@), ..self@ }),
    {
        SubjectBuilder { network_user_id: Some(v.to_owned()), ..self }
    }

    /// Builds the subject. Every attribute is optional, so this never fails.
    pub fn build(self) -> (r: Result<Subject, Error>)
        ensures
            r matches Ok(s) && s@ == self@,
    {
        Ok(
            Subject {
                user_id: self.user_id,
                ip_address: self.ip_address,
                timezone: self.timezone,
                language: self.language,
                useragent: self.useragent,
                domain_user_id: self.domain_user_id,
                network_user_id: self.network_user_id,
            },
        )
    }
}

/// The flattened wire text of a subject's attributes: one `,"name":"value"`
/// fragment per present attribute, in protocol order, ready to follow the
/// core payload fields.
pub open spec fn spec_subject_fields_json(s: SubjectView) -> Seq<char> {
    spec_opt_str_field("uid"@, s.user_id) + spec_opt_str_field("ip"@, s.ip_address)
        + spec_opt_str_field("tz"@, s.timezone) + spec_opt_str_field("lang"@, s.language)
        + spec_opt_str_field("ua"@, s.useragent) + spec_opt_str_field("duid"@, s.domain_user_id)
        + spec_opt_str_field("tnuid"@, s.network_user_id)
}

/// Appends the flattened wire fields of a subject.
#[verifier::rlimit(100)]
pub fn append_subject_fields(out: &mut String, s: &Subject)
    ensures
        final(out)@ == old(out)@ + spec_subject_fields_json(s@),
{
    append_opt_str_field(out, "uid", &s.user_id);
    append_opt_str_field(out, "ip", &s.ip_address);
    append_opt_str_field(out, "tz", &s.timezone);
    append_opt_str_field(out, "lang", &s.language);
    append_opt_str_field(out, "ua", &s.useragent);
    append_opt_str_field(out, "duid", &s.domain_user_id);
    append_opt_str_field(out, "tnuid", &s.network_user_id);
    proof {
        assert(out@ =~= old(out)@ + spec_subject_fields_json(s@));
    }
}

} // verus!
