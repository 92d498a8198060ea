//! The notification router and the notification payloads. Routing is a
//! total, exhaustive, side-effect-free mapping from an accepted event's kind
//! to exactly one of: an immediate send, the payment aggregator, the
//! live-event scheduler, or nothing. The payload builders pin down every
//! header and value a notification carries; the delivery layer renders the
//! body text and posts it, best-effort.

use vstd::prelude::*;

use crate::event::Event;
use crate::event::EventId;
use crate::event::EventKind;
use crate::event::opt_str_view;
use crate::event::spec_sat_sub;
use crate::event::saturating_sub;
use crate::live::LiveEvent;
use crate::live::clone_opt_string;
use crate::zap::get_zap_request_amount;
use crate::zap::spec_zap_request_amount;

verus! {

/// Delivery priority: the five levels the push channel understands.
#[derive(Clone, Copy, PartialEq, Eq, Structural, Debug)]
pub enum Priority {
    Min,
    Low,
    Default,
    High,
    Max,
}

pub open spec fn spec_priority_level(p: Priority) -> u8 {
    match p {
        Priority::Min => 1,
        Priority::Low => 2,
        Priority::Default => 3,
        Priority::High => 4,
        Priority::Max => 5,
    }
}

pub open spec fn spec_priority_label(p: Priority) -> Seq<char> {
    match p {
        Priority::Min => "min"@,
        Priority::Low => "low"@,
        Priority::Default => "default"@,
        Priority::High => "high"@,
        Priority::Max => "max"@,
    }
}

impl Priority {
    /// The numeric level the push channel's priority header carries: 1 (min)
    /// to 5 (max).
    pub fn level(&self) -> (r: u8)
        ensures
            r == spec_priority_level(*self),
    {
        match self {
            Priority::Min => 1,
            Priority::Low => 2,
            Priority::Default => 3,
            Priority::High => 4,
            Priority::Max => 5,
        }
    }

    /// The word the push channel's priority header understands.
    pub fn label(&self) -> (r: &'static str)
        ensures
            r@ == spec_priority_label(*self),
    {
        match self {
            Priority::Min => "min",
            Priority::Low => "low",
            Priority::Default => "default",
            Priority::High => "high",
            Priority::Max => "max",
        }
    }
}

/// What one notification's body says, as plain values; the delivery layer
/// turns them into text.
#[derive(Debug)]
pub enum NotificationBody {
    NewDm,
    ZapsReceived { amount_sats: u32 },
    CommentReceived,
    EventStartsIn { title: Option<String>, starts_in_secs: Option<u64> },
}

/// One outbound notification: title, priority, icon tag, an optional event
/// to link through to, and the body.
#[derive(Debug)]
pub struct Notification {
    pub title: &'static str,
    pub priority: Priority,
    pub tag: &'static str,
    pub click_event: Option<EventId>,
    pub body: NotificationBody,
}

/// The notification for a received direct message.
pub fn dm_notification() -> (n: Notification)
    ensures
        n.title@ == "New DM Received"@,
        n.priority is Default,
        n.tag@ == "book"@,
        n.click_event is None,
        n.body is NewDm,
{
    Notification {
        title: "New DM Received",
        priority: Priority::Default,
        tag: "book",
        click_event: None,
        body: NotificationBody::NewDm,
    }
}

/// The notification for an aggregated total of payment amounts, given in
/// thousandths of a unit. The display value is whole units by integer
/// division: the fractional remainder is dropped, not rounded.
pub fn zap_notification(amount_millis: u32) -> (n: Notification)
    ensures
        n.title@ == "Zaps Received"@,
        n.priority is Default,
        n.tag@ == "moneybag"@,
        n.click_event is None,
        n.body == (NotificationBody::ZapsReceived { amount_sats: amount_millis / 1000 }),
{
    Notification {
        title: "Zaps Received",
        priority: Priority::Default,
        tag: "moneybag",
        click_event: None,
        body: NotificationBody::ZapsReceived { amount_sats: amount_millis / 1000 },
    }
}

/// The notification for a comment on one of the monitored identity's notes,
/// linking through to the comment.
pub fn comment_notification(event_id: EventId) -> (n: Notification)
    ensures
        n.title@ == "Comment Received"@,
        n.priority is Default,
        n.tag@ == "incoming_envelope"@,
        n.click_event == Some(event_id),
        n.body is CommentReceived,
{
    Notification {
        title: "Comment Received",
        priority: Priority::Default,
        tag: "incoming_envelope",
        click_event: Some(event_id),
        body: NotificationBody::CommentReceived,
    }
}

/// The notification for a live-event announcement: the event's title when it
/// has one, and — when a start time is known — how far off the start is as
/// of `now` (zero once the start has passed). Sent once on acceptance and
/// once more as the reminder, each time with a fresh `now`.
pub fn event_notification(record: &LiveEvent, event_id: EventId, now: u64) -> (n: Notification)
    ensures
        n.title@ == "Event announcement"@,
        n.priority is Default,
        n.tag@ == "spiral_calendar"@,
        n.click_event == Some(event_id),
        n.body matches NotificationBody::EventStartsIn { title, starts_in_secs }
            && opt_str_view(title) == record@.title && starts_in_secs == (match record.starts {
            Some(s) => Some(spec_sat_sub(s, now)),
            None => None::<u64>,
        }),
{
    let starts_in_secs = match record.starts {
        Some(s) => Some(saturating_sub(s, now)),
        None => None,
    };
    Notification {
        title: "Event announcement",
        priority: Priority::Default,
        tag: "spiral_calendar",
        click_event: Some(event_id),
        body: NotificationBody::EventStartsIn {
            title: clone_opt_string(&record.title),
            starts_in_secs,
        },
    }
}

/// Where one accepted event goes — to at most one place.
#[derive(Clone, Copy, PartialEq, Eq, Structural, Debug)]
pub enum Route {
    NotifyDm,
    AggregateZap(u32),
    NotifyComment(EventId),
    ScheduleLiveEvent,
    Ignore,
}

/// The route per kind: a direct message notifies at once; a payment receipt
/// hands its amount to the aggregator; a note notifies as a comment, linking
/// the note itself; a live event gets its own scheduler; anything else is
/// ignored.
pub open spec fn spec_route(e: Event) -> Route {
    match e.kind {
        EventKind::EncryptedDirectMessage => Route::NotifyDm,
        EventKind::ZapReceipt => Route::AggregateZap(spec_zap_request_amount(e)),
        EventKind::TextNote => Route::NotifyComment(e.id),
        EventKind::LiveEvent => Route::ScheduleLiveEvent,
        EventKind::Other => Route::Ignore,
    }
}

/// Routes one accepted event, as [`spec_route`] says.
pub fn route_event(event: &Event) -> (r: Route)
    ensures
        r == spec_route(*event),
{
    match event.kind {
        EventKind::EncryptedDirectMessage => Route::NotifyDm,
        EventKind::ZapReceipt => Route::AggregateZap(get_zap_request_amount(event)),
        EventKind::TextNote => Route::NotifyComment(event.id),
        EventKind::LiveEvent => Route::ScheduleLiveEvent,
        EventKind::Other => Route::Ignore,
    }
}

} // verus!
