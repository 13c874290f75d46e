//! The admission service as seen by a transport: a request in, a reply and
//! one observability record out, or a request-shape error.

use vstd::prelude::*;
use vstd::string::*;
use crate::codec::{canonicalize, npub_text, valid_key};
use crate::engine::{denial, evaluate, Decision, Event};
use crate::policy::PolicyConfig;

verus! {

/// Number of characters of an event's content that a record keeps.
pub const CONTENT_SAMPLE_LEN: usize = 40;

/// A verified NIP-05 name attached to a request.
pub struct Nip05 {
    pub domain: String,
}

/// An admission request: the proposed event and what is known of where it
/// came from.
pub struct EventRequest {
    pub event: Option<Event>,
    pub origin: Option<String>,
    pub nip05: Option<Nip05>,
}

/// The verdict as the reply carries it.
#[derive(Debug, Clone, Copy, PartialEq, Eq, Structural)]
pub enum Verdict {
    Permit,
    Deny,
}

/// The reply to an admission request. A message comes with a denial only.
pub struct EventReply {
    pub decision: Verdict,
    pub message: Option<String>,
}

/// A request whose shape does not allow a decision.
#[derive(Debug, Clone, Copy, PartialEq, Eq, Structural)]
pub enum RequestError {
    /// The request carries no event.
    MissingEvent,
}

/// What is recorded of each admitted-or-denied request.
pub struct AdmissionRecord {
    pub kind: u64,
    pub origin: Option<String>,
    /// The author's canonical identifier; `None` where the key is invalid.
    pub author: Option<String>,
    pub nip05_domain: Option<String>,
    pub tag_count: usize,
    /// The first characters of the content, at most `CONTENT_SAMPLE_LEN`.
    pub content_sample: String,
}

/// The first `CONTENT_SAMPLE_LEN` characters of `s`, or all of it where it is shorter.
pub open spec fn sample_of(s: Seq<char>) -> Seq<char> {
    if s.len() <= CONTENT_SAMPLE_LEN {
        s
    } else {
        s.take(CONTENT_SAMPLE_LEN as int)
    }
}

/// The first `CONTENT_SAMPLE_LEN` characters of `content`.
pub fn content_sample(content: &String) -> (r: String)
    ensures
        r@ == sample_of(content@),
{
    let s = content.as_str();
    let n = s.unicode_len();
    let end = if n <= CONTENT_SAMPLE_LEN { n } else { CONTENT_SAMPLE_LEN };
    let r = s.substring_char(0, end).to_owned();
    assert(content@.subrange(0, end as int) =~= sample_of(content@));
    r
}

fn copy_string(s: &String) -> (r: String)
    ensures
        r@ == s@,
{
    s.as_str().to_owned()
}

fn copy_opt_string(s: &Option<String>) -> (r: Option<String>)
    ensures
        r matches Some(c) ==> s matches Some(o) && c@ == o@,
        r is None <==> s is None,
{
    match s {
        Some(o) => Some(copy_string(o)),
        None => None,
    }
}

impl EventReply {
    /// The reply that carries `d`.
    pub fn from_decision(d: Decision) -> (r: EventReply)
        ensures
            (r.decision == Verdict::Permit) == (d is Permit),
            r.message matches Some(m) ==> d.message() == Some(m@),
            r.message is None <==> d.message() is None,
    {
        match d {
            Decision::Permit => EventReply { decision: Verdict::Permit, message: None },
            Decision::Deny(m) => EventReply { decision: Verdict::Deny, message: Some(m) },
        }
    }
}

impl AdmissionRecord {
    /// The record of a request for `event` with the given metadata.
    pub fn of_request(event: &Event, origin: &Option<String>, nip05: &Option<Nip05>) -> (r: AdmissionRecord)
        ensures
            r.kind == event.kind,
            r.origin matches Some(c) ==> origin matches Some(o) && c@ == o@,
            r.origin is None <==> origin is None,
            r.author matches Some(a) ==> valid_key(event.pubkey@) && a@ == npub_text(event.pubkey@),
            r.author is None <==> !valid_key(event.pubkey@),
            r.nip05_domain matches Some(d) ==> nip05 matches Some(n) && d@ == n.domain@,
            r.nip05_domain is None <==> nip05 is None,
            r.tag_count == event.tags@.len(),
            r.content_sample@ == sample_of(event.content@),
    {
        let author = match canonicalize(event.pubkey.as_slice()) {
            Ok(id) => Some(id),
            Err(_) => None,
        };
        let nip05_domain = match nip05 {
            Some(n) => Some(copy_string(&n.domain)),
            None => None,
        };
        AdmissionRecord {
            kind: event.kind,
            origin: copy_opt_string(origin),
            author,
            nip05_domain,
            tag_count: event.tags.len(),
            content_sample: content_sample(&event.content),
        }
    }
}

/// The admission service: it holds the published policy and answers
/// requests against it.
pub struct EventAuthz {
    pub policy: PolicyConfig,
}

impl EventAuthz {
    pub fn new(policy: PolicyConfig) -> (r: EventAuthz)
        ensures
            r.policy == policy,
    {
        EventAuthz { policy }
    }

    /// Answers `req`: a request without an event is refused before any
    /// decision; otherwise the reply carries the decision on the event, and
    /// the record describes the request.
    pub fn event_admit(&self, req: &EventRequest) -> (r: Result<(EventReply, AdmissionRecord), RequestError>)
        ensures
            r is Err <==> req.event is None,
            r matches Err(e) ==> e == RequestError::MissingEvent,
            r matches Ok((reply, record)) ==> req.event matches Some(event) && {
                let d = denial(event.kind, event.pubkey@, self.policy);
                &&& (reply.decision == Verdict::Permit) == (d is None)
                &&& reply.message is None <==> d is None
                &&& reply.message matches Some(m) ==> d == Some(m@)
                &&& record.kind == event.kind
                &&& (record.origin is None <==> req.origin is None)
                &&& (record.origin matches Some(c) ==> req.origin matches Some(o) && c@ == o@)
                &&& (record.nip05_domain is None <==> req.nip05 is None)
                &&& (record.nip05_domain matches Some(d) ==> req.nip05 matches Some(n) && d@ == n.domain@)
                &&& record.tag_count == event.tags@.len()
                &&& record.content_sample@ == sample_of(event.content@)
                &&& (record.author is None <==> !valid_key(event.pubkey@))
                &&& (record.author matches Some(a) ==> a@ == npub_text(event.pubkey@))
            },
    {
        match &req.event {
            None => Err(RequestError::MissingEvent),
            Some(event) => {
                let record = AdmissionRecord::of_request(event, &req.origin, &req.nip05);
                let decision = evaluate(event, &self.policy);
                Ok((EventReply::from_decision(decision), record))
            },
        }
    }
}

} // verus!
