use bullhorn::event::LiveEventMarker;
use bullhorn::event::PublicKey;
use bullhorn::event::Tag;
use bullhorn::live::LiveEventError;
use bullhorn::live::plan_live_event;
use bullhorn::live::reminder_delay;
use bullhorn::live::tags_to_live_event;

fn pk(n: u64) -> PublicKey {
    PublicKey { w0: n, w1: 0, w2: 0, w3: 0 }
}

fn participant(n: u64, marker: LiveEventMarker) -> Tag {
    Tag::PublicKeyLiveEvent {
        public_key: pk(n),
        relay_url: None,
        marker,
        proof_sig: None,
    }
}

#[test]
fn record_round_trips_its_tags() {
    let tags = vec![
        Tag::Identifier(Some(String::from("room-1"))),
        Tag::Title(String::from("X")),
        Tag::Starts(5000),
        participant(7, LiveEventMarker::Host),
        participant(8, LiveEventMarker::Speaker),
        participant(9, LiveEventMarker::Speaker),
        Tag::Hashtag(String::from("audio")),
    ];
    let rec = tags_to_live_event(&tags).unwrap();
    assert_eq!(rec.id, "room-1");
    assert_eq!(rec.title, Some(String::from("X")));
    assert_eq!(rec.starts, Some(5000));
    assert_eq!(rec.host.as_ref().unwrap().public_key, pk(7));
    assert_eq!(rec.speakers.len(), 2);
    assert_eq!(rec.speakers[0].0, pk(8));
    assert_eq!(rec.speakers[1].0, pk(9));
    assert_eq!(rec.hashtags, vec![String::from("audio")]);
    // tags absent from the set leave the fields unset, never defaulted
    assert_eq!(rec.summary, None);
    assert_eq!(rec.streaming, None);
    assert_eq!(rec.recording, None);
    assert_eq!(rec.ends, None);
    assert_eq!(rec.status, None);
    assert_eq!(rec.image, None);
    assert_eq!(rec.current_participants, None);
    assert_eq!(rec.total_participants, None);
    assert!(rec.relays.is_empty());
    assert!(rec.participants.is_empty());
}

#[test]
fn identifier_tag_is_mandatory() {
    let tags = vec![Tag::Title(String::from("X"))];
    assert_eq!(tags_to_live_event(&tags).unwrap_err(), LiveEventError::IdentifierMissing);
}

#[test]
fn identifier_without_content_fails() {
    let tags = vec![Tag::Identifier(None), Tag::Title(String::from("X"))];
    assert_eq!(
        tags_to_live_event(&tags).unwrap_err(),
        LiveEventError::IdentifierWithoutContent
    );
}

#[test]
fn identifier_with_empty_content_fails() {
    // empty content is as hard a failure as no content at all
    let tags = vec![Tag::Identifier(Some(String::new())), Tag::Title(String::from("X"))];
    assert_eq!(
        tags_to_live_event(&tags).unwrap_err(),
        LiveEventError::IdentifierWithoutContent
    );
    assert!(plan_live_event(&tags, 50_000).is_none());
}

#[test]
fn duplicated_single_valued_tags_last_wins() {
    let tags = vec![
        Tag::Identifier(Some(String::from("d"))),
        Tag::Title(String::from("first")),
        participant(1, LiveEventMarker::Host),
        Tag::Title(String::from("second")),
        participant(2, LiveEventMarker::Host),
        Tag::Starts(10),
        Tag::Starts(20),
    ];
    let rec = tags_to_live_event(&tags).unwrap();
    assert_eq!(rec.title, Some(String::from("second")));
    assert_eq!(rec.host.unwrap().public_key, pk(2));
    assert_eq!(rec.starts, Some(20));
}

#[test]
fn unrecognized_tags_ignored() {
    let tags = vec![
        Tag::Other,
        Tag::Identifier(Some(String::from("d"))),
        Tag::EventRef(bullhorn::event::EventId { w0: 1, w1: 0, w2: 0, w3: 0 }),
        Tag::Other,
    ];
    let rec = tags_to_live_event(&tags).unwrap();
    assert_eq!(rec.id, "d");
    assert_eq!(rec.title, None);
}

#[test]
fn relay_lists_append_in_order() {
    let tags = vec![
        Tag::Identifier(Some(String::from("d"))),
        Tag::Relays(vec![String::from("a"), String::from("b")]),
        Tag::Relays(vec![String::from("c")]),
    ];
    let rec = tags_to_live_event(&tags).unwrap();
    assert_eq!(rec.relays, vec![String::from("a"), String::from("b"), String::from("c")]);
}

#[test]
fn participant_roles_split_by_marker() {
    let tags = vec![
        Tag::Identifier(Some(String::from("d"))),
        participant(1, LiveEventMarker::Speaker),
        participant(2, LiveEventMarker::Participant),
        participant(3, LiveEventMarker::Host),
        participant(4, LiveEventMarker::Participant),
    ];
    let rec = tags_to_live_event(&tags).unwrap();
    assert_eq!(rec.host.unwrap().public_key, pk(3));
    assert_eq!(rec.speakers.len(), 1);
    assert_eq!(rec.participants.len(), 2);
    assert_eq!(rec.participants[0].0, pk(2));
    assert_eq!(rec.participants[1].0, pk(4));
}

#[test]
fn reminder_fires_half_hour_before_start() {
    // a start 45 minutes out means a 15 minute wait
    let now: u64 = 1000;
    assert_eq!(reminder_delay(now + 45 * 60, now), 15 * 60);
}

#[test]
fn reminder_within_lead_time_fires_immediately() {
    let now: u64 = 10000;
    assert_eq!(reminder_delay(now + 1800, now), 0);
    assert_eq!(reminder_delay(now + 100, now), 0);
    assert_eq!(reminder_delay(now - 100, now), 0);
}

#[test]
fn plan_schedules_one_reminder_for_timed_event() {
    let now: u64 = 50_000;
    let tags = vec![
        Tag::Identifier(Some(String::from("d"))),
        Tag::Starts(now + 45 * 60),
    ];
    let plan = plan_live_event(&tags, now).unwrap();
    assert_eq!(plan.reminder_delay, Some(15 * 60));
    assert_eq!(plan.record.starts, Some(now + 45 * 60));
}

#[test]
fn plan_without_start_time_has_no_reminder() {
    let tags = vec![Tag::Identifier(Some(String::from("d"))), Tag::Title(String::from("X"))];
    let plan = plan_live_event(&tags, 50_000).unwrap();
    assert_eq!(plan.reminder_delay, None);
}

#[test]
fn plan_drops_malformed_tag_set() {
    let tags = vec![Tag::Title(String::from("X"))];
    assert!(plan_live_event(&tags, 50_000).is_none());
}
