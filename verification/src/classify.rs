//! The event classifier: the per-kind acceptance rules that decide which
//! events of the transport stream the user is notified about, including the
//! reply-validity check for notes and the live-event deduplication.
//!
//! The classifier is a pure decision: the caller receives the stream, performs
//! the one store lookup a note needs (see [`Classifier::reference_to_check`])
//! and hands the result in; the decision and the state change are fully
//! specified by [`spec_accepts`] and [`spec_step`].

use vstd::prelude::*;

use crate::event::Event;
use crate::event::EventId;
use crate::event::EventKind;
use crate::event::PublicKey;
use crate::event::first_event_ref;
use crate::event::first_event_reference;

verus! {

/// The set of live-event identifiers already forwarded this process lifetime.
/// It only ever grows; the process is long-lived per user and the set stays
/// small, so nothing is evicted.
pub struct SeenLiveEventSet {
    ids: Vec<EventId>,
}

impl View for SeenLiveEventSet {
    type V = Set<EventId>;

    closed spec fn view(&self) -> Set<EventId> {
        self.ids@.to_set()
    }
}

impl SeenLiveEventSet {
    /// An empty set.
    pub fn new() -> (s: Self)
        ensures
            s@ == Set::<EventId>::empty(),
    {
        let s = SeenLiveEventSet { ids: Vec::new() };
        proof {
            assert(s.ids@.to_set() =~= Set::<EventId>::empty());
        }
        s
    }

    /// Whether `id` has been recorded.
    pub fn contains(&self, id: &EventId) -> (r: bool)
        ensures
            r == self@.contains(*id),
    {
        let n = self.ids.len();
        let mut i: usize = 0;
        while i < n
            invariant
                0 <= i <= n,
                n == self.ids@.len(),
                forall|j: int| 0 <= j < i ==> self.ids@[j] != *id,
            decreases n - i,
        {
            if self.ids[i] == *id {
                proof {
                    assert(self.ids@.contains(*id));
                }
                return true;
            }
            i = i + 1;
        }
        proof {
            assert(!self.ids@.contains(*id));
        }
        false
    }

    /// Records `id`.
    fn insert(&mut self, id: EventId)
        ensures
            final(self)@ == old(self)@.insert(id),
    {
        self.ids.push(id);
        proof {
            let s1 = old(self).ids@;
            let s2 = self.ids@;
            assert forall|x: EventId|
                s2.to_set().contains(x) <==> s1.to_set().insert(id).contains(x) by {
                vstd::seq_lib::lemma_seq_contains_after_push(s1, id, x);
            }
            assert(s2.to_set() =~= s1.to_set().insert(id));
        }
    }
}

/// The classifier's abstract state: the monitored identity, and the set of
/// live-event identifiers already forwarded.
pub struct ClassifierModel {
    pub monitored: PublicKey,
    pub seen: Set<EventId>,
}

/// The decision the classifier takes for one event.
#[derive(Clone, Copy, PartialEq, Eq, Structural, Debug)]
pub enum Decision {
    Forward,
    Ignore,
}

/// Whether, in state `m`, the event `e` is forwarded. `referenced_author` is
/// the author of the event that `e`'s first event reference points to, as the
/// caller's store lookup found it — `None` when there is no reference or the
/// lookup found nothing ("not yet known" and "not a reply to us" are equally
/// valid, non-exceptional outcomes).
pub open spec fn spec_accepts(
    m: ClassifierModel,
    e: Event,
    referenced_author: Option<PublicKey>,
) -> bool {
    match e.kind {
        EventKind::EncryptedDirectMessage => true,
        EventKind::ZapReceipt => true,
        EventKind::TextNote => first_event_ref(e.tags@) is Some && referenced_author
            == Some(m.monitored),
        EventKind::LiveEvent => !m.seen.contains(e.id),
        EventKind::Other => false,
    }
}

/// The state after classifying `e` in state `m`: a forwarded live event is
/// recorded, and nothing else changes.
pub open spec fn spec_step(
    m: ClassifierModel,
    e: Event,
    referenced_author: Option<PublicKey>,
) -> ClassifierModel {
    if e.kind is LiveEvent && spec_accepts(m, e, referenced_author) {
        ClassifierModel { monitored: m.monitored, seen: m.seen.insert(e.id) }
    } else {
        m
    }
}

/// The state after classifying each input of `inputs` in order.
pub open spec fn spec_run(
    m: ClassifierModel,
    inputs: Seq<(Event, Option<PublicKey>)>,
) -> ClassifierModel
    decreases inputs.len(),
{
    if inputs.len() == 0 {
        m
    } else {
        spec_run(spec_step(m, inputs[0].0, inputs[0].1), inputs.drop_first())
    }
}

/// The identifier a note's acceptance depends on: the note being responded
/// to. Only notes ever need a lookup.
pub open spec fn spec_reference_to_check(e: Event) -> Option<EventId> {
    if e.kind is TextNote {
        first_event_ref(e.tags@)
    } else {
        None
    }
}

/// Classifies events for one monitored identity, one at a time.
pub struct Classifier {
    monitored: PublicKey,
    seen: SeenLiveEventSet,
}

impl View for Classifier {
    type V = ClassifierModel;

    closed spec fn view(&self) -> ClassifierModel {
        ClassifierModel { monitored: self.monitored, seen: self.seen@ }
    }
}

impl Classifier {
    /// A classifier for `monitored` with nothing yet seen.
    pub fn new(monitored: PublicKey) -> (c: Self)
        ensures
            c@.monitored == monitored,
            c@.seen == Set::<EventId>::empty(),
    {
        Classifier { monitored, seen: SeenLiveEventSet::new() }
    }

    /// The event identifier the caller must look up in its store before
    /// classifying `event`, if any: the first event reference of a note.
    pub fn reference_to_check(&self, event: &Event) -> (r: Option<EventId>)
        ensures
            r == spec_reference_to_check(*event),
    {
        match event.kind {
            EventKind::TextNote => first_event_reference(&event.tags),
            _ => None,
        }
    }

    /// Applies the per-event acceptance rules: direct messages and payment
    /// receipts always forward; a note forwards only when it references an
    /// event and that event's author (handed in as `referenced_author`) is the
    /// monitored identity; a live event forwards only the first time its
    /// identifier is seen, and is recorded before the caller can send; any
    /// other kind is ignored.
    pub fn classify(&mut self, event: &Event, referenced_author: Option<PublicKey>) -> (d:
        Decision)
        ensures
            final(self)@ == spec_step(old(self)@, *event, referenced_author),
            d == Decision::Forward <==> spec_accepts(old(self)@, *event, referenced_author),
    {
        match event.kind {
            EventKind::EncryptedDirectMessage => Decision::Forward,
            EventKind::ZapReceipt => Decision::Forward,
            EventKind::TextNote => {
                let reference = first_event_reference(&event.tags);
                match (reference, referenced_author) {
                    (Some(_), Some(author)) => {
                        if author == self.monitored {
                            Decision::Forward
                        } else {
                            Decision::Ignore
                        }
                    },
                    _ => Decision::Ignore,
                }
            },
            EventKind::LiveEvent => {
                if self.seen.contains(&event.id) {
                    Decision::Ignore
                } else {
                    self.seen.insert(event.id);
                    Decision::Forward
                }
            },
            EventKind::Other => Decision::Ignore,
        }
    }
}

/// Law: a direct message or a payment receipt is forwarded unconditionally,
/// in every state and whatever the lookup said.
pub proof fn lemma_dm_and_zap_always_forwarded(
    m: ClassifierModel,
    e: Event,
    referenced_author: Option<PublicKey>,
)
    requires
        e.kind is EncryptedDirectMessage || e.kind is ZapReceipt,
    ensures
        spec_accepts(m, e, referenced_author),
{
}

/// Law: a note with no event reference is never forwarded.
pub proof fn lemma_note_without_reference_dropped(
    m: ClassifierModel,
    e: Event,
    referenced_author: Option<PublicKey>,
)
    requires
        e.kind is TextNote,
        first_event_ref(e.tags@) is None,
    ensures
        !spec_accepts(m, e, referenced_author),
{
}

/// Law: a note with an event reference is forwarded exactly when the
/// referenced event was found and its author is the monitored identity.
pub proof fn lemma_note_reply_validation(
    m: ClassifierModel,
    e: Event,
    referenced_author: Option<PublicKey>,
)
    requires
        e.kind is TextNote,
        first_event_ref(e.tags@) is Some,
    ensures
        spec_accepts(m, e, referenced_author) <==> referenced_author == Some(m.monitored),
{
}

/// Classifying one event never forgets a seen live event and never changes
/// the monitored identity.
pub proof fn lemma_step_monotone(m: ClassifierModel, e: Event, referenced_author: Option<
    PublicKey>)
    ensures
        m.seen.subset_of(spec_step(m, e, referenced_author).seen),
        spec_step(m, e, referenced_author).monitored == m.monitored,
{
}

/// Classifying any run of events never forgets a seen live event and never
/// changes the monitored identity.
pub proof fn lemma_run_monotone(m: ClassifierModel, inputs: Seq<(Event, Option<PublicKey>)>)
    ensures
        m.seen.subset_of(spec_run(m, inputs).seen),
        spec_run(m, inputs).monitored == m.monitored,
    decreases inputs.len(),
{
    if inputs.len() > 0 {
        let m1 = spec_step(m, inputs[0].0, inputs[0].1);
        lemma_step_monotone(m, inputs[0].0, inputs[0].1);
        lemma_run_monotone(m1, inputs.drop_first());
    }
}

/// Law: among live events sharing an identifier only the first is forwarded.
/// Once one is accepted, no later event with that identifier is, whatever
/// other events arrive in between.
pub proof fn lemma_live_event_forwarded_once(
    m: ClassifierModel,
    e1: Event,
    a1: Option<PublicKey>,
    between: Seq<(Event, Option<PublicKey>)>,
    e2: Event,
    a2: Option<PublicKey>,
)
    requires
        e1.kind is LiveEvent,
        spec_accepts(m, e1, a1),
        e2.kind is LiveEvent,
        e2.id == e1.id,
    ensures
        !spec_accepts(spec_run(spec_step(m, e1, a1), between), e2, a2),
{
    let m1 = spec_step(m, e1, a1);
    assert(m1.seen.contains(e1.id));
    lemma_run_monotone(m1, between);
    assert(spec_run(m1, between).seen.contains(e2.id));
}

} // verus!
