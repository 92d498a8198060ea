//! The subscription filters: exactly what the transport must be asked for so
//! that the four categories of interest — and nothing else — arrive.

use vstd::prelude::*;

use crate::event::EventKind;
use crate::event::PublicKey;
use crate::event::spec_sat_sub;
use crate::event::saturating_sub;

verus! {

/// One subscription filter: a conjunction of accepted kinds, of authors, of
/// tagged recipients, and a lower-bound timestamp. An empty list constrains
/// nothing.
pub struct Filter {
    pub kinds: Vec<EventKind>,
    pub authors: Vec<PublicKey>,
    pub pubkeys: Vec<PublicKey>,
    pub since: u64,
}

/// How far back the identity's own notes are fetched: they are only a lookup
/// table for reply validation, two days is plenty.
pub const OWN_NOTES_LOOKBACK_SECS: u64 = 172800;

/// How far back live-event announcements matter.
pub const LIVE_EVENT_LOOKBACK_SECS: u64 = 86400;

/// The four filters for one monitored identity: messages and payment
/// receipts addressed to it from now on; its own recent notes, used only to
/// validate replies, never themselves notified; notes tagging it from now
/// on; and live events from the followed identities over the last day.
pub fn pubkey_receives_filter(pubkey: PublicKey, event_npubs: Vec<PublicKey>, now: u64) -> (r:
    Vec<Filter>)
    ensures
        r@.len() == 4,
        r@[0].kinds@ == seq![EventKind::EncryptedDirectMessage, EventKind::ZapReceipt],
        r@[0].authors@ == Seq::<PublicKey>::empty(),
        r@[0].pubkeys@ == seq![pubkey],
        r@[0].since == now,
        r@[1].kinds@ == seq![EventKind::TextNote],
        r@[1].authors@ == seq![pubkey],
        r@[1].pubkeys@ == Seq::<PublicKey>::empty(),
        r@[1].since == spec_sat_sub(now, OWN_NOTES_LOOKBACK_SECS),
        r@[2].kinds@ == seq![EventKind::TextNote],
        r@[2].authors@ == Seq::<PublicKey>::empty(),
        r@[2].pubkeys@ == seq![pubkey],
        r@[2].since == now,
        r@[3].kinds@ == seq![EventKind::LiveEvent],
        r@[3].authors@ == event_npubs@,
        r@[3].pubkeys@ == Seq::<PublicKey>::empty(),
        r@[3].since == spec_sat_sub(now, LIVE_EVENT_LOOKBACK_SECS),
{
    let dm_zap = Filter {
        kinds: vec![EventKind::EncryptedDirectMessage, EventKind::ZapReceipt],
        authors: Vec::new(),
        pubkeys: vec![pubkey],
        since: now,
    };
    let own_notes = Filter {
        kinds: vec![EventKind::TextNote],
        authors: vec![pubkey],
        pubkeys: Vec::new(),
        since: saturating_sub(now, OWN_NOTES_LOOKBACK_SECS),
    };
    let tagged_notes = Filter {
        kinds: vec![EventKind::TextNote],
        authors: Vec::new(),
        pubkeys: vec![pubkey],
        since: now,
    };
    let live_events = Filter {
        kinds: vec![EventKind::LiveEvent],
        authors: event_npubs,
        pubkeys: Vec::new(),
        since: saturating_sub(now, LIVE_EVENT_LOOKBACK_SECS),
    };
    let r = vec![dm_zap, own_notes, tagged_notes, live_events];
    proof {
        assert(r@[0].kinds@ =~= seq![EventKind::EncryptedDirectMessage, EventKind::ZapReceipt]);
        assert(r@[0].authors@ =~= Seq::<PublicKey>::empty());
        assert(r@[0].pubkeys@ =~= seq![pubkey]);
        assert(r@[1].kinds@ =~= seq![EventKind::TextNote]);
        assert(r@[1].authors@ =~= seq![pubkey]);
        assert(r@[1].pubkeys@ =~= Seq::<PublicKey>::empty());
        assert(r@[2].kinds@ =~= seq![EventKind::TextNote]);
        assert(r@[2].authors@ =~= Seq::<PublicKey>::empty());
        assert(r@[2].pubkeys@ =~= seq![pubkey]);
        assert(r@[3].kinds@ =~= seq![EventKind::LiveEvent]);
        assert(r@[3].pubkeys@ =~= Seq::<PublicKey>::empty());
    }
    r
}

} // verus!
