//! The data model the core reads: identities, event identifiers, event kinds
//! and tags. Transport hands events in already validated; the core only ever
//! reads them.

use vstd::prelude::*;

verus! {

/// A 256-bit event identifier, held as four 64-bit words.
#[derive(Clone, Copy, PartialEq, Eq, Structural, Hash, Debug)]
pub struct EventId {
    pub w0: u64,
    pub w1: u64,
    pub w2: u64,
    pub w3: u64,
}

/// A 256-bit public key: the identity of an actor in the protocol.
#[derive(Clone, Copy, PartialEq, Eq, Structural, Hash, Debug)]
pub struct PublicKey {
    pub w0: u64,
    pub w1: u64,
    pub w2: u64,
    pub w3: u64,
}

/// The closed set of event categories the core distinguishes. Every kind the
/// protocol defines beyond these four is `Other` and is never notified about.
#[derive(Clone, Copy, PartialEq, Eq, Structural, Debug)]
pub enum EventKind {
    EncryptedDirectMessage,
    ZapReceipt,
    TextNote,
    LiveEvent,
    Other,
}

/// The role a participant tag assigns within a live event.
#[derive(Clone, Copy, PartialEq, Eq, Structural, Debug)]
pub enum LiveEventMarker {
    Host,
    Speaker,
    Participant,
}

/// The embedded payment request carried by a payment receipt's description
/// tag, already parsed and signature-checked by the transport layer.
#[derive(Debug)]
pub struct ZapRequest {
    pub tags: Vec<Tag>,
}

/// Structured metadata attached to an event. Tags the core does not read are
/// handed in as `Other`.
///
/// A `Description` tag holds `None` when its content is absent or is not a
/// valid signed request; an `Identifier` or `Amount` tag holds `None` when the
/// tag is present without content.
#[derive(Debug)]
pub enum Tag {
    EventRef(EventId),
    Identifier(Option<String>),
    Description(Option<ZapRequest>),
    Amount(Option<String>),
    Title(String),
    Summary(String),
    Streaming(String),
    Status(String),
    PublicKeyLiveEvent {
        public_key: PublicKey,
        relay_url: Option<String>,
        marker: LiveEventMarker,
        proof_sig: Option<String>,
    },
    Image(String, Option<String>),
    Hashtag(String),
    Recording(String),
    Starts(u64),
    Ends(u64),
    CurrentParticipants(u64),
    TotalParticipants(u64),
    Relays(Vec<String>),
    Other,
}

/// An immutable event as the transport delivers it.
#[derive(Debug)]
pub struct Event {
    pub id: EventId,
    pub author: PublicKey,
    pub kind: EventKind,
    pub tags: Vec<Tag>,
    pub created_at: u64,
}

/// The character sequence an optional string holds.
pub open spec fn opt_str_view(o: Option<String>) -> Option<Seq<char>> {
    match o {
        Some(s) => Some(s@),
        None => None,
    }
}

/// Timestamps are seconds; a difference reaching below zero clamps there.
pub open spec fn spec_sat_sub(a: u64, b: u64) -> u64 {
    if a >= b {
        (a - b) as u64
    } else {
        0
    }
}

/// `a - b`, clamped at zero.
pub fn saturating_sub(a: u64, b: u64) -> (r: u64)
    ensures
        r == spec_sat_sub(a, b),
{
    if a >= b {
        a - b
    } else {
        0
    }
}

/// The first event reference among `tags`, if any. The first-listed reference
/// is the note being responded to; later references are ignored.
pub open spec fn first_event_ref(tags: Seq<Tag>) -> Option<EventId>
    decreases tags.len(),
{
    if tags.len() == 0 {
        None
    } else {
        match tags[0] {
            Tag::EventRef(id) => Some(id),
            _ => first_event_ref(tags.drop_first()),
        }
    }
}

/// Scans the tags in order and returns the first event reference, the one
/// treated as "the note being responded to".
pub fn first_event_reference(tags: &Vec<Tag>) -> (r: Option<EventId>)
    ensures
        r == first_event_ref(tags@),
{
    let n = tags.len();
    let mut i: usize = 0;
    proof {
        assert(tags@.skip(0) =~= tags@);
    }
    while i < n
        invariant
            0 <= i <= n,
            n == tags@.len(),
            first_event_ref(tags@) == first_event_ref(tags@.skip(i as int)),
        decreases n - i,
    {
        proof {
            assert(tags@.skip(i as int)[0] == tags@[i as int]);
            assert(tags@.skip(i as int).drop_first() =~= tags@.skip(i as int + 1));
        }
        match &tags[i] {
            Tag::EventRef(id) => {
                return Some(*id);
            },
            _ => {},
        }
        i = i + 1;
    }
    proof {
        assert(tags@.skip(n as int) =~= Seq::<Tag>::empty());
    }
    None
}

} // verus!
