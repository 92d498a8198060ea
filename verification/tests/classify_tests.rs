use bullhorn::classify::Classifier;
use bullhorn::classify::Decision;
use bullhorn::event::Event;
use bullhorn::event::EventId;
use bullhorn::event::EventKind;
use bullhorn::event::PublicKey;
use bullhorn::event::Tag;

fn pk(n: u64) -> PublicKey {
    PublicKey { w0: n, w1: 0, w2: 0, w3: 0 }
}

fn eid(n: u64) -> EventId {
    EventId { w0: n, w1: 0, w2: 0, w3: 0 }
}

fn ev(kind: EventKind, id: u64, author: u64, tags: Vec<Tag>) -> Event {
    Event { id: eid(id), author: pk(author), kind, tags, created_at: 0 }
}

#[test]
fn dm_forwarded_unconditionally() {
    let mut c = Classifier::new(pk(1));
    let e = ev(EventKind::EncryptedDirectMessage, 10, 2, vec![]);
    assert_eq!(c.classify(&e, None), Decision::Forward);
    // a second identical message forwards again: no dedup for messages
    let e2 = ev(EventKind::EncryptedDirectMessage, 10, 2, vec![]);
    assert_eq!(c.classify(&e2, None), Decision::Forward);
}

#[test]
fn zap_receipt_forwarded_unconditionally() {
    let mut c = Classifier::new(pk(1));
    let e = ev(EventKind::ZapReceipt, 11, 3, vec![]);
    assert_eq!(c.classify(&e, None), Decision::Forward);
    let e2 = ev(EventKind::ZapReceipt, 11, 3, vec![]);
    assert_eq!(c.classify(&e2, None), Decision::Forward);
}

#[test]
fn note_without_reference_dropped() {
    let mut c = Classifier::new(pk(1));
    let e = ev(EventKind::TextNote, 12, 2, vec![Tag::Hashtag(String::from("x"))]);
    assert_eq!(c.reference_to_check(&e), None);
    assert_eq!(c.classify(&e, None), Decision::Ignore);
}

#[test]
fn note_referencing_foreign_author_dropped() {
    let mut c = Classifier::new(pk(1));
    let e = ev(EventKind::TextNote, 13, 2, vec![Tag::EventRef(eid(99))]);
    assert_eq!(c.reference_to_check(&e), Some(eid(99)));
    // the lookup found the referenced event, but someone else wrote it
    assert_eq!(c.classify(&e, Some(pk(7))), Decision::Ignore);
}

#[test]
fn note_referencing_monitored_author_forwarded() {
    let mut c = Classifier::new(pk(1));
    let e = ev(EventKind::TextNote, 14, 2, vec![Tag::EventRef(eid(99))]);
    assert_eq!(c.classify(&e, Some(pk(1))), Decision::Forward);
}

#[test]
fn note_with_unknown_reference_dropped() {
    let mut c = Classifier::new(pk(1));
    let e = ev(EventKind::TextNote, 15, 2, vec![Tag::EventRef(eid(99))]);
    // the lookup found nothing: a valid, non-exceptional outcome, silently dropped
    assert_eq!(c.classify(&e, None), Decision::Ignore);
}

#[test]
fn note_first_reference_wins() {
    let c = Classifier::new(pk(1));
    let e = ev(
        EventKind::TextNote,
        16,
        2,
        vec![Tag::Hashtag(String::from("h")), Tag::EventRef(eid(41)), Tag::EventRef(eid(42))],
    );
    assert_eq!(c.reference_to_check(&e), Some(eid(41)));
}

#[test]
fn non_note_needs_no_lookup() {
    let c = Classifier::new(pk(1));
    let e = ev(EventKind::ZapReceipt, 17, 2, vec![Tag::EventRef(eid(41))]);
    assert_eq!(c.reference_to_check(&e), None);
}

#[test]
fn live_event_duplicates_suppressed() {
    let mut c = Classifier::new(pk(1));
    let first = ev(EventKind::LiveEvent, 20, 5, vec![]);
    assert_eq!(c.classify(&first, None), Decision::Forward);
    // other kinds arriving in between do not disturb the dedup set
    let dm = ev(EventKind::EncryptedDirectMessage, 21, 2, vec![]);
    assert_eq!(c.classify(&dm, None), Decision::Forward);
    let duplicate = ev(EventKind::LiveEvent, 20, 5, vec![]);
    assert_eq!(c.classify(&duplicate, None), Decision::Ignore);
    let again = ev(EventKind::LiveEvent, 20, 5, vec![]);
    assert_eq!(c.classify(&again, None), Decision::Ignore);
    // a different identifier is fresh
    let other = ev(EventKind::LiveEvent, 22, 5, vec![]);
    assert_eq!(c.classify(&other, None), Decision::Forward);
}

#[test]
fn other_kinds_dropped() {
    let mut c = Classifier::new(pk(1));
    let e = ev(EventKind::Other, 30, 2, vec![]);
    assert_eq!(c.classify(&e, None), Decision::Ignore);
}
