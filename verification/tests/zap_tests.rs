use bullhorn::event::Event;
use bullhorn::event::EventId;
use bullhorn::event::EventKind;
use bullhorn::event::PublicKey;
use bullhorn::event::Tag;
use bullhorn::event::ZapRequest;
use bullhorn::zap::get_zap_request_amount;
use bullhorn::zap::parse_u32;

fn receipt(tags: Vec<Tag>) -> Event {
    Event {
        id: EventId { w0: 1, w1: 0, w2: 0, w3: 0 },
        author: PublicKey { w0: 2, w1: 0, w2: 0, w3: 0 },
        kind: EventKind::ZapReceipt,
        tags,
        created_at: 0,
    }
}

fn request_with_amount(content: Option<&str>) -> ZapRequest {
    ZapRequest { tags: vec![Tag::Amount(content.map(String::from))] }
}

#[test]
fn amount_read_from_embedded_request() {
    let e = receipt(vec![Tag::Description(Some(request_with_amount(Some("21000"))))]);
    assert_eq!(get_zap_request_amount(&e), 21000);
}

#[test]
fn amount_zero_without_description_tag() {
    let e = receipt(vec![Tag::Hashtag(String::from("x"))]);
    assert_eq!(get_zap_request_amount(&e), 0);
}

#[test]
fn amount_zero_when_description_invalid() {
    let e = receipt(vec![Tag::Description(None)]);
    assert_eq!(get_zap_request_amount(&e), 0);
}

#[test]
fn first_description_tag_decides() {
    // the first description tag is invalid; a later valid one is ignored
    let e = receipt(vec![
        Tag::Description(None),
        Tag::Description(Some(request_with_amount(Some("500")))),
    ]);
    assert_eq!(get_zap_request_amount(&e), 0);
}

#[test]
fn amount_zero_without_amount_tag() {
    let req = ZapRequest { tags: vec![Tag::Hashtag(String::from("x"))] };
    let e = receipt(vec![Tag::Description(Some(req))]);
    assert_eq!(get_zap_request_amount(&e), 0);
}

#[test]
fn amount_zero_when_amount_tag_empty() {
    let e = receipt(vec![Tag::Description(Some(request_with_amount(None)))]);
    assert_eq!(get_zap_request_amount(&e), 0);
}

#[test]
fn amount_zero_when_not_a_number() {
    let e = receipt(vec![Tag::Description(Some(request_with_amount(Some("12a"))))]);
    assert_eq!(get_zap_request_amount(&e), 0);
}

#[test]
fn amount_zero_on_overflow() {
    let e = receipt(vec![Tag::Description(Some(request_with_amount(Some("4294967296"))))]);
    assert_eq!(get_zap_request_amount(&e), 0);
}

#[test]
fn parse_u32_accepts_digits() {
    assert_eq!(parse_u32("0"), Some(0));
    assert_eq!(parse_u32("42"), Some(42));
    assert_eq!(parse_u32("007"), Some(7));
    assert_eq!(parse_u32("4294967295"), Some(u32::MAX));
}

#[test]
fn parse_u32_accepts_leading_plus() {
    assert_eq!(parse_u32("+123"), Some(123));
    assert_eq!(parse_u32("+"), None);
}

#[test]
fn parse_u32_rejects_everything_else() {
    assert_eq!(parse_u32(""), None);
    assert_eq!(parse_u32("-1"), None);
    assert_eq!(parse_u32(" 1"), None);
    assert_eq!(parse_u32("1 "), None);
    assert_eq!(parse_u32("12a"), None);
    assert_eq!(parse_u32("4294967296"), None);
    assert_eq!(parse_u32("99999999999999999999"), None);
}
