//! The decision engine: an event and a policy in, a permit or a denial with
//! its reason out.

use vstd::prelude::*;
use vstd::string::*;
use crate::codec::{canonicalize, npub_text, valid_key};
use crate::policy::PolicyConfig;

verus! {

/// The parts of a proposed event that admission looks at.
pub struct Event {
    pub kind: u64,
    pub pubkey: Vec<u8>,
    pub content: String,
    pub tags: Vec<Vec<String>>,
}

/// The outcome of an admission request. Only a denial carries a message.
pub enum Decision {
    Permit,
    Deny(String),
}

impl Decision {
    /// The denial message, or `None` for a permit.
    pub open spec fn message(&self) -> Option<Seq<char>> {
        match self {
            Decision::Permit => None,
            Decision::Deny(m) => Some(m@),
        }
    }

    pub fn is_permit(&self) -> (r: bool)
        ensures
            r == (self is Permit),
    {
        matches!(self, Decision::Permit)
    }

    /// The denial message, if any.
    pub fn message_text(&self) -> (r: Option<String>)
        ensures
            r matches Some(m) ==> self.message() == Some(m@),
            r is None <==> self.message() is None,
    {
        match self {
            Decision::Permit => None,
            Decision::Deny(m) => Some(m.clone()),
        }
    }
}

pub open spec fn decimal_digit(d: nat) -> char {
    if d == 0 { '0' } else if d == 1 { '1' } else if d == 2 { '2' } else if d == 3 { '3' }
    else if d == 4 { '4' } else if d == 5 { '5' } else if d == 6 { '6' } else if d == 7 { '7' }
    else if d == 8 { '8' } else { '9' }
}

/// The decimal numeral of `n`, without leading zeros.
pub open spec fn decimal(n: nat) -> Seq<char>
    decreases n,
{
    if n < 10 {
        seq![decimal_digit(n)]
    } else {
        decimal(n / 10).push(decimal_digit(n % 10))
    }
}

pub open spec fn not_permitted_suffix() -> Seq<char> {
    seq![' ', 'n', 'o', 't', ' ', 'p', 'e', 'r', 'm', 'i', 't', 't', 'e', 'd']
}

/// "Kind <kind> not permitted".
pub open spec fn kind_denial(kind: u64) -> Seq<char> {
    seq!['K', 'i', 'n', 'd', ' '] + decimal(kind as nat) + not_permitted_suffix()
}

/// "Author <id> not permitted".
pub open spec fn author_denial(id: Seq<char>) -> Seq<char> {
    seq!['A', 'u', 't', 'h', 'o', 'r', ' '] + id + not_permitted_suffix()
}

/// "Invalid author key".
pub open spec fn invalid_key_denial() -> Seq<char> {
    seq!['I', 'n', 'v', 'a', 'l', 'i', 'd', ' ', 'a', 'u', 't', 'h', 'o', 'r', ' ', 'k', 'e', 'y']
}

/// The message of the decision on an event of `kind` by the raw key `pubkey`,
/// `None` where the event is permitted. A key that does not canonicalize is
/// denied first; then the kind is checked, and only then the author.
pub open spec fn denial(kind: u64, pubkey: Seq<u8>, policy: PolicyConfig) -> Option<Seq<char>> {
    if !valid_key(pubkey) {
        Some(invalid_key_denial())
    } else if !policy.kinds().contains(kind) {
        Some(kind_denial(kind))
    } else if !policy.authors().contains(npub_text(pubkey)) {
        Some(author_denial(npub_text(pubkey)))
    } else {
        None
    }
}

fn digit_text(d: u64) -> (r: &'static str)
    requires
        d < 10,
    ensures
        r@ == seq![decimal_digit(d as nat)],
{
    proof {
        reveal_strlit("0");
        reveal_strlit("1");
        reveal_strlit("2");
        reveal_strlit("3");
        reveal_strlit("4");
        reveal_strlit("5");
        reveal_strlit("6");
        reveal_strlit("7");
        reveal_strlit("8");
        reveal_strlit("9");
    }
    match d {
        0 => "0",
        1 => "1",
        2 => "2",
        3 => "3",
        4 => "4",
        5 => "5",
        6 => "6",
        7 => "7",
        8 => "8",
        _ => "9",
    }
}

/// The decimal numeral of `n`.
pub fn decimal_text(n: u64) -> (r: String)
    ensures
        r@ == decimal(n as nat),
    decreases n,
{
    if n < 10 {
        digit_text(n).to_owned()
    } else {
        let mut s = decimal_text(n / 10);
        s.append(digit_text(n % 10));
        s
    }
}

fn kind_message(kind: u64) -> (r: String)
    ensures
        r@ == kind_denial(kind),
{
    proof {
        reveal_strlit("Kind ");
        reveal_strlit(" not permitted");
    }
    let mut s = "Kind ".to_owned();
    let n = decimal_text(kind);
    s.append(n.as_str());
    s.append(" not permitted");
    s
}

fn author_message(id: &String) -> (r: String)
    ensures
        r@ == author_denial(id@),
{
    proof {
        reveal_strlit("Author ");
        reveal_strlit(" not permitted");
    }
    let mut s = "Author ".to_owned();
    s.append(id.as_str());
    s.append(" not permitted");
    s
}

/// Decides whether `event` is admitted under `policy`.
pub fn evaluate(event: &Event, policy: &PolicyConfig) -> (r: Decision)
    ensures
        r.message() == denial(event.kind, event.pubkey@, *policy),
{
    let author = match canonicalize(event.pubkey.as_slice()) {
        Ok(id) => id,
        Err(_) => {
            proof {
                reveal_strlit("Invalid author key");
            }
            return Decision::Deny("Invalid author key".to_owned());
        },
    };
    let kind_permitted = policy.kind_allowed(event.kind);
    let author_permitted = policy.author_allowed(&author);
    if kind_permitted && author_permitted {
        Decision::Permit
    } else if !kind_permitted {
        Decision::Deny(kind_message(event.kind))
    } else {
        Decision::Deny(author_message(&author))
    }
}

/// An event of a permitted kind whose author's canonical identifier is
/// permitted is admitted, with no message.
pub proof fn lemma_permit_when_kind_and_author_allowed(kind: u64, pubkey: Seq<u8>, policy: PolicyConfig)
    requires
        valid_key(pubkey),
        policy.kinds().contains(kind),
        policy.authors().contains(npub_text(pubkey)),
    ensures
        denial(kind, pubkey, policy) is None,
{
}

/// An event of a kind that is not permitted is denied with a message that
/// names the kind, whoever its author is.
pub proof fn lemma_deny_names_kind(kind: u64, pubkey: Seq<u8>, policy: PolicyConfig)
    requires
        valid_key(pubkey),
        !policy.kinds().contains(kind),
    ensures
        denial(kind, pubkey, policy) == Some(kind_denial(kind)),
        kind_denial(kind).subrange(5, 5 + decimal(kind as nat).len() as int) == decimal(kind as nat),
{
    assert(kind_denial(kind).subrange(5, 5 + decimal(kind as nat).len() as int) =~= decimal(kind as nat));
}

/// An event of a permitted kind whose author is not permitted is denied with
/// a message that names the author's canonical identifier.
pub proof fn lemma_deny_names_author(kind: u64, pubkey: Seq<u8>, policy: PolicyConfig)
    requires
        valid_key(pubkey),
        policy.kinds().contains(kind),
        !policy.authors().contains(npub_text(pubkey)),
    ensures
        denial(kind, pubkey, policy) == Some(author_denial(npub_text(pubkey))),
        author_denial(npub_text(pubkey)).subrange(7, 7 + npub_text(pubkey).len() as int)
            == npub_text(pubkey),
{
    assert(author_denial(npub_text(pubkey)).subrange(7, 7 + npub_text(pubkey).len() as int)
        =~= npub_text(pubkey));
}

/// With no permitted author, no event is admitted; one of a permitted kind
/// with a valid key is denied on its author.
pub proof fn lemma_empty_authors_deny_all(kind: u64, pubkey: Seq<u8>, policy: PolicyConfig)
    requires
        policy.allowed_authors@.len() == 0,
        policy.kinds().contains(kind),
    ensures
        denial(kind, pubkey, policy) is Some,
        valid_key(pubkey) ==> denial(kind, pubkey, policy) == Some(author_denial(npub_text(pubkey))),
{
    assert(policy.allowed_authors@.map_values(|s: String| s@) =~= Seq::<Seq<char>>::empty());
    assert(policy.authors() =~= Set::<Seq<char>>::empty());
}

} // verus!
