//! The live-event scheduler's pure half: building a structured record from an
//! announcement's tag set, and computing the reminder wait.
//!
//! The record is built by scanning all tags in order and folding each
//! recognized tag into the corresponding field; unrecognized tags are
//! ignored. The identifier tag is mandatory: its absence, or its presence
//! with no or empty content, fails the whole event (no partial record is
//! ever handed out). The caller sends one immediate notification, and — only when a start
//! time is present — one reminder after [`reminder_delay`].

use vstd::prelude::*;

use crate::event::PublicKey;
use crate::event::Tag;
use crate::event::LiveEventMarker;
use crate::event::opt_str_view;
use vstd::string::StrSliceExecFns;

verus! {

/// The host of a live event, as its participant tag names it.
#[derive(Debug)]
pub struct LiveEventHost {
    pub public_key: PublicKey,
    pub relay_url: Option<String>,
    pub proof_sig: Option<String>,
}

/// The in-memory projection of a live-event announcement's tag set.
#[derive(Debug)]
pub struct LiveEvent {
    pub id: String,
    pub title: Option<String>,
    pub summary: Option<String>,
    pub image: Option<(String, Option<String>)>,
    pub hashtags: Vec<String>,
    pub streaming: Option<String>,
    pub recording: Option<String>,
    pub starts: Option<u64>,
    pub ends: Option<u64>,
    pub status: Option<String>,
    pub current_participants: Option<u64>,
    pub total_participants: Option<u64>,
    pub relays: Vec<String>,
    pub host: Option<LiveEventHost>,
    pub speakers: Vec<(PublicKey, Option<String>)>,
    pub participants: Vec<(PublicKey, Option<String>)>,
}

/// Why a tag set yields no record.
#[derive(Clone, Copy, PartialEq, Eq, Structural, Debug)]
pub enum LiveEventError {
    IdentifierMissing,
    IdentifierWithoutContent,
}

/// The mathematical shape of a host entry.
#[verifier::ext_equal]
pub struct LiveEventHostModel {
    pub public_key: PublicKey,
    pub relay_url: Option<Seq<char>>,
    pub proof_sig: Option<Seq<char>>,
}

/// The mathematical shape of a record: every string as its character
/// sequence, every list as a sequence.
#[verifier::ext_equal]
pub struct LiveEventModel {
    pub id: Seq<char>,
    pub title: Option<Seq<char>>,
    pub summary: Option<Seq<char>>,
    pub image: Option<(Seq<char>, Option<Seq<char>>)>,
    pub hashtags: Seq<Seq<char>>,
    pub streaming: Option<Seq<char>>,
    pub recording: Option<Seq<char>>,
    pub starts: Option<u64>,
    pub ends: Option<u64>,
    pub status: Option<Seq<char>>,
    pub current_participants: Option<u64>,
    pub total_participants: Option<u64>,
    pub relays: Seq<Seq<char>>,
    pub host: Option<LiveEventHostModel>,
    pub speakers: Seq<(PublicKey, Option<Seq<char>>)>,
    pub participants: Seq<(PublicKey, Option<Seq<char>>)>,
}

pub open spec fn str_seq_view(v: Seq<String>) -> Seq<Seq<char>> {
    v.map_values(|s: String| s@)
}

pub open spec fn pk_pairs_view(v: Seq<(PublicKey, Option<String>)>) -> Seq<
    (PublicKey, Option<Seq<char>>),
> {
    v.map_values(|p: (PublicKey, Option<String>)| (p.0, opt_str_view(p.1)))
}

impl View for LiveEventHost {
    type V = LiveEventHostModel;

    open spec fn view(&self) -> LiveEventHostModel {
        LiveEventHostModel {
            public_key: self.public_key,
            relay_url: opt_str_view(self.relay_url),
            proof_sig: opt_str_view(self.proof_sig),
        }
    }
}

impl View for LiveEvent {
    type V = LiveEventModel;

    open spec fn view(&self) -> LiveEventModel {
        LiveEventModel {
            id: self.id@,
            title: opt_str_view(self.title),
            summary: opt_str_view(self.summary),
            image: match self.image {
                Some((u, d)) => Some((u@, opt_str_view(d))),
                None => None,
            },
            hashtags: str_seq_view(self.hashtags@),
            streaming: opt_str_view(self.streaming),
            recording: opt_str_view(self.recording),
            starts: self.starts,
            ends: self.ends,
            status: opt_str_view(self.status),
            current_participants: self.current_participants,
            total_participants: self.total_participants,
            relays: str_seq_view(self.relays@),
            host: match self.host {
                Some(h) => Some(h@),
                None => None,
            },
            speakers: pk_pairs_view(self.speakers@),
            participants: pk_pairs_view(self.participants@),
        }
    }
}

/// A record holding only its identifier: every other field unset, never
/// defaulted to a placeholder.
pub open spec fn spec_new_live_event(id: Seq<char>) -> LiveEventModel {
    LiveEventModel {
        id: id,
        title: None,
        summary: None,
        image: None,
        hashtags: Seq::empty(),
        streaming: None,
        recording: None,
        starts: None,
        ends: None,
        status: None,
        current_participants: None,
        total_participants: None,
        relays: Seq::empty(),
        host: None,
        speakers: Seq::empty(),
        participants: Seq::empty(),
    }
}

/// How one tag changes the record: single-valued fields are overwritten (so a
/// duplicated tag means the last one wins), list fields are appended to, and
/// anything unrecognized leaves the record unchanged.
pub open spec fn spec_apply_tag(m: LiveEventModel, tag: Tag) -> LiveEventModel {
    match tag {
        Tag::Title(s) => LiveEventModel { title: Some(s@), ..m },
        Tag::Summary(s) => LiveEventModel { summary: Some(s@), ..m },
        Tag::Streaming(s) => LiveEventModel { streaming: Some(s@), ..m },
        Tag::Status(s) => LiveEventModel { status: Some(s@), ..m },
        Tag::PublicKeyLiveEvent { public_key, relay_url, marker, proof_sig } => match marker {
            LiveEventMarker::Host => LiveEventModel {
                host: Some(
                    LiveEventHostModel {
                        public_key: public_key,
                        relay_url: opt_str_view(relay_url),
                        proof_sig: opt_str_view(proof_sig),
                    },
                ),
                ..m
            },
            LiveEventMarker::Speaker => LiveEventModel {
                speakers: m.speakers.push((public_key, opt_str_view(relay_url))),
                ..m
            },
            LiveEventMarker::Participant => LiveEventModel {
                participants: m.participants.push((public_key, opt_str_view(relay_url))),
                ..m
            },
        },
        Tag::Image(u, d) => LiveEventModel { image: Some((u@, opt_str_view(d))), ..m },
        Tag::Hashtag(s) => LiveEventModel { hashtags: m.hashtags.push(s@), ..m },
        Tag::Recording(s) => LiveEventModel { recording: Some(s@), ..m },
        Tag::Starts(t) => LiveEventModel { starts: Some(t), ..m },
        Tag::Ends(t) => LiveEventModel { ends: Some(t), ..m },
        Tag::CurrentParticipants(c) => LiveEventModel { current_participants: Some(c), ..m },
        Tag::TotalParticipants(c) => LiveEventModel { total_participants: Some(c), ..m },
        Tag::Relays(v) => LiveEventModel { relays: m.relays + str_seq_view(v@), ..m },
        _ => m,
    }
}

/// The record after folding every tag of `tags`, in order, over `m`.
pub open spec fn spec_fold_tags(m: LiveEventModel, tags: Seq<Tag>) -> LiveEventModel
    decreases tags.len(),
{
    if tags.len() == 0 {
        m
    } else {
        spec_fold_tags(spec_apply_tag(m, tags[0]), tags.drop_first())
    }
}

/// The content of the first identifier tag: `None` when no identifier tag is
/// present, `Some(None)` when the first one has no content.
pub open spec fn spec_identifier(tags: Seq<Tag>) -> Option<Option<Seq<char>>>
    decreases tags.len(),
{
    if tags.len() == 0 {
        None
    } else {
        match tags[0] {
            Tag::Identifier(c) => Some(opt_str_view(c)),
            _ => spec_identifier(tags.drop_first()),
        }
    }
}

/// What a tag set yields: the folded record keyed by the first identifier
/// tag's content, or the error that fails the event. An identifier tag whose
/// content is absent or empty is as hard a failure as no identifier tag at
/// all: a record never carries an empty identifier.
pub open spec fn spec_tags_to_live_event(tags: Seq<Tag>) -> Result<LiveEventModel, LiveEventError> {
    match spec_identifier(tags) {
        None => Err(LiveEventError::IdentifierMissing),
        Some(None) => Err(LiveEventError::IdentifierWithoutContent),
        Some(Some(id)) => if id.len() == 0 {
            Err(LiveEventError::IdentifierWithoutContent)
        } else {
            Ok(spec_fold_tags(spec_new_live_event(id), tags))
        },
    }
}

/// A copy of `s` with the same characters.
pub(crate) fn clone_string(s: &String) -> (r: String)
    ensures
        r@ == s@,
{
    String::from_str(s.as_str())
}

/// A copy of `o` with the same characters.
pub(crate) fn clone_opt_string(o: &Option<String>) -> (r: Option<String>)
    ensures
        opt_str_view(r) == opt_str_view(*o),
{
    match o {
        Some(s) => Some(clone_string(s)),
        None => None,
    }
}

/// A record holding only its identifier.
pub fn new_live_event(id: String) -> (r: LiveEvent)
    ensures
        r@ == spec_new_live_event(id@),
{
    let r = LiveEvent {
        id,
        title: None,
        summary: None,
        image: None,
        hashtags: Vec::new(),
        streaming: None,
        recording: None,
        starts: None,
        ends: None,
        status: None,
        current_participants: None,
        total_participants: None,
        relays: Vec::new(),
        host: None,
        speakers: Vec::new(),
        participants: Vec::new(),
    };
    proof {
        assert(r@ =~= spec_new_live_event(r.id@));
    }
    r
}

/// Mapping a sequence of strings to their views commutes with appending one.
proof fn lemma_str_seq_view_push(v: Seq<String>, s: String)
    ensures
        str_seq_view(v.push(s)) == str_seq_view(v).push(s@),
{
    let l = str_seq_view(v.push(s));
    let r = str_seq_view(v).push(s@);
    assert forall|i: int| 0 <= i < l.len() implies l[i] == r[i] by {
        if i < v.len() {
            assert(v.push(s)[i] == v[i]);
        } else {
            assert(v.push(s)[i] == s);
        }
    }
    assert(l =~= r);
}

/// Appends a copy of every string of `src` to `dst`.
fn push_all_cloned(dst: &mut Vec<String>, src: &Vec<String>)
    ensures
        str_seq_view(final(dst)@) == str_seq_view(old(dst)@) + str_seq_view(src@),
{
    let n = src.len();
    let mut k: usize = 0;
    while k < n
        invariant
            0 <= k <= n,
            n == src@.len(),
            str_seq_view(dst@) == str_seq_view(old(dst)@) + str_seq_view(src@.take(k as int)),
        decreases n - k,
    {
        let c = clone_string(&src[k]);
        let ghost prev = dst@;
        dst.push(c);
        proof {
            lemma_str_seq_view_push(prev, dst@.last());
            assert(src@.take(k as int + 1) =~= src@.take(k as int).push(src@[k as int]));
            lemma_str_seq_view_push(src@.take(k as int), src@[k as int]);
            assert(str_seq_view(dst@) =~= str_seq_view(old(dst)@) + str_seq_view(
                src@.take(k as int + 1),
            ));
        }
        k = k + 1;
    }
    proof {
        assert(src@.take(n as int) =~= src@);
    }
}

/// Folds one tag into the record, as [`spec_apply_tag`] says.
fn apply_tag(rec: &mut LiveEvent, tag: &Tag)
    ensures
        final(rec)@ == spec_apply_tag(old(rec)@, *tag),
{
    match tag {
        Tag::Title(s) => {
            rec.title = Some(clone_string(s));
        },
        Tag::Summary(s) => {
            rec.summary = Some(clone_string(s));
        },
        Tag::Streaming(s) => {
            rec.streaming = Some(clone_string(s));
        },
        Tag::Status(s) => {
            rec.status = Some(clone_string(s));
        },
        Tag::PublicKeyLiveEvent { public_key, relay_url, marker, proof_sig } => match marker {
            LiveEventMarker::Host => {
                rec.host = Some(
                    LiveEventHost {
                        public_key: *public_key,
                        relay_url: clone_opt_string(relay_url),
                        proof_sig: clone_opt_string(proof_sig),
                    },
                );
            },
            LiveEventMarker::Speaker => {
                rec.speakers.push((*public_key, clone_opt_string(relay_url)));
                proof {
                    assert(pk_pairs_view(rec.speakers@) =~= spec_apply_tag(old(rec)@, *tag)
                        .speakers);
                }
            },
            LiveEventMarker::Participant => {
                rec.participants.push((*public_key, clone_opt_string(relay_url)));
                proof {
                    assert(pk_pairs_view(rec.participants@) =~= spec_apply_tag(old(rec)@, *tag)
                        .participants);
                }
            },
        },
        Tag::Image(u, d) => {
            rec.image = Some((clone_string(u), clone_opt_string(d)));
        },
        Tag::Hashtag(s) => {
            rec.hashtags.push(clone_string(s));
            proof {
                assert(str_seq_view(rec.hashtags@) =~= spec_apply_tag(old(rec)@, *tag).hashtags);
            }
        },
        Tag::Recording(s) => {
            rec.recording = Some(clone_string(s));
        },
        Tag::Starts(t) => {
            rec.starts = Some(*t);
        },
        Tag::Ends(t) => {
            rec.ends = Some(*t);
        },
        Tag::CurrentParticipants(c) => {
            rec.current_participants = Some(*c);
        },
        Tag::TotalParticipants(c) => {
            rec.total_participants = Some(*c);
        },
        Tag::Relays(v) => {
            push_all_cloned(&mut rec.relays, v);
        },
        _ => {},
    }
    proof {
        assert(final(rec)@ =~= spec_apply_tag(old(rec)@, *tag));
    }
}

/// The index of the first identifier tag.
fn find_identifier_index(tags: &Vec<Tag>) -> (r: Option<usize>)
    ensures
        match r {
            Some(j) => 0 <= j < tags@.len() && tags@[j as int] is Identifier && forall|k: int|
                0 <= k < j ==> !(tags@[k] is Identifier),
            None => forall|k: int| 0 <= k < tags@.len() ==> !(tags@[k] is Identifier),
        },
{
    let n = tags.len();
    let mut i: usize = 0;
    while i < n
        invariant
            0 <= i <= n,
            n == tags@.len(),
            forall|k: int| 0 <= k < i ==> !(tags@[k] is Identifier),
        decreases n - i,
    {
        match &tags[i] {
            Tag::Identifier(_) => {
                return Some(i);
            },
            _ => {},
        }
        i = i + 1;
    }
    None
}

/// Relates the first identifier tag found by position to [`spec_identifier`].
proof fn lemma_identifier_at(tags: Seq<Tag>, j: int)
    requires
        0 <= j < tags.len(),
        tags[j] is Identifier,
        forall|k: int| 0 <= k < j ==> !(tags[k] is Identifier),
    ensures
        tags[j] matches Tag::Identifier(c) && spec_identifier(tags) == Some(opt_str_view(c)),
    decreases j,
{
    if j > 0 {
        assert(tags.drop_first()[j - 1] == tags[j]);
        assert forall|k: int| 0 <= k < j - 1 implies !(tags.drop_first()[k] is Identifier) by {
            assert(tags.drop_first()[k] == tags[k + 1]);
        }
        lemma_identifier_at(tags.drop_first(), j - 1);
    }
}

/// When no identifier tag is present, [`spec_identifier`] says so.
proof fn lemma_identifier_absent(tags: Seq<Tag>)
    requires
        forall|k: int| 0 <= k < tags.len() ==> !(tags[k] is Identifier),
    ensures
        spec_identifier(tags) is None,
    decreases tags.len(),
{
    if tags.len() > 0 {
        assert forall|k: int| 0 <= k < tags.drop_first().len() implies !(tags.drop_first()[k]
            is Identifier) by {
            assert(tags.drop_first()[k] == tags[k + 1]);
        }
        lemma_identifier_absent(tags.drop_first());
    }
}

/// Builds the record a live-event announcement's tag set describes: scans all
/// tags in order and maps each recognized one to the corresponding field. The
/// identifier tag is mandatory; a tag set without one, or whose first
/// identifier tag has no or empty content, fails (and the caller drops the
/// event).
pub fn tags_to_live_event(tags: &Vec<Tag>) -> (r: Result<LiveEvent, LiveEventError>)
    ensures
        match r {
            Ok(rec) => spec_tags_to_live_event(tags@) == Ok::<LiveEventModel, LiveEventError>(
                rec@,
            ),
            Err(e) => spec_tags_to_live_event(tags@) == Err::<LiveEventModel, LiveEventError>(e),
        },
{
    let found = find_identifier_index(tags);
    let j = match found {
        Some(j) => j,
        None => {
            proof {
                lemma_identifier_absent(tags@);
            }
            return Err(LiveEventError::IdentifierMissing);
        },
    };
    proof {
        lemma_identifier_at(tags@, j as int);
    }
    let id = match &tags[j] {
        Tag::Identifier(Some(s)) => {
            if s.as_str().unicode_len() == 0 {
                return Err(LiveEventError::IdentifierWithoutContent);
            }
            clone_string(s)
        },
        Tag::Identifier(None) => {
            return Err(LiveEventError::IdentifierWithoutContent);
        },
        _ => vstd::pervasive::unreached(),
    };
    let mut rec = new_live_event(id);
    let ghost m0 = rec@;
    let n = tags.len();
    let mut i: usize = 0;
    proof {
        assert(tags@.skip(0) =~= tags@);
    }
    while i < n
        invariant
            0 <= i <= n,
            n == tags@.len(),
            spec_fold_tags(rec@, tags@.skip(i as int)) == spec_fold_tags(m0, tags@),
        decreases n - i,
    {
        proof {
            assert(tags@.skip(i as int)[0] == tags@[i as int]);
            assert(tags@.skip(i as int).drop_first() =~= tags@.skip(i as int + 1));
        }
        apply_tag(&mut rec, &tags[i]);
        i = i + 1;
    }
    proof {
        assert(tags@.skip(n as int) =~= Seq::<Tag>::empty());
    }
    Ok(rec)
}

/// How long the caller waits before the pre-start reminder: until half an
/// hour before `starts`. An announcement already within that lead time (or
/// past its start) gets its reminder immediately — the wait is clamped at
/// zero rather than left undefined.
pub const REMINDER_LEAD_SECS: u64 = 1800;

pub open spec fn spec_reminder_delay(starts: u64, now: u64) -> u64 {
    if starts >= now + REMINDER_LEAD_SECS {
        (starts - now - REMINDER_LEAD_SECS) as u64
    } else {
        0
    }
}

/// The wait, in seconds, from `now` until half an hour before `starts`.
pub fn reminder_delay(starts: u64, now: u64) -> (r: u64)
    ensures
        r == spec_reminder_delay(starts, now),
{
    if starts >= REMINDER_LEAD_SECS && starts - REMINDER_LEAD_SECS >= now {
        starts - REMINDER_LEAD_SECS - now
    } else {
        0
    }
}

/// What one accepted announcement commits the caller to: the record, and —
/// only when a start time is known — one reminder after the given wait.
pub struct LiveEventPlan {
    pub record: LiveEvent,
    pub reminder_delay: Option<u64>,
}

/// Builds the record and schedules at most one reminder. `None` exactly when
/// the tag set fails [`tags_to_live_event`]; a timed event gets one reminder,
/// an event with no start time gets none — a deliberate asymmetry.
pub fn plan_live_event(tags: &Vec<Tag>, now: u64) -> (r: Option<LiveEventPlan>)
    ensures
        match spec_tags_to_live_event(tags@) {
            Ok(m) => r matches Some(p) && p.record@ == m && p.reminder_delay == (match m.starts {
                Some(s) => Some(spec_reminder_delay(s, now)),
                None => None::<u64>,
            }),
            Err(_) => r is None,
        },
{
    match tags_to_live_event(tags) {
        Ok(record) => {
            let reminder = match record.starts {
                Some(s) => Some(reminder_delay(s, now)),
                None => None,
            };
            Some(LiveEventPlan { record, reminder_delay: reminder })
        },
        Err(_) => None,
    }
}

/// The content of the last title tag, if any.
pub open spec fn spec_last_title(tags: Seq<Tag>) -> Option<Seq<char>>
    decreases tags.len(),
{
    if tags.len() == 0 {
        None
    } else {
        let rest = spec_last_title(tags.drop_first());
        match tags[0] {
            Tag::Title(s) => match rest {
                Some(t) => Some(t),
                None => Some(s@),
            },
            _ => rest,
        }
    }
}

/// The last start time named, if any.
pub open spec fn spec_last_starts(tags: Seq<Tag>) -> Option<u64>
    decreases tags.len(),
{
    if tags.len() == 0 {
        None
    } else {
        let rest = spec_last_starts(tags.drop_first());
        match tags[0] {
            Tag::Starts(t) => match rest {
                Some(x) => Some(x),
                None => Some(t),
            },
            _ => rest,
        }
    }
}

/// The last host named, if any.
pub open spec fn spec_last_host(tags: Seq<Tag>) -> Option<LiveEventHostModel>
    decreases tags.len(),
{
    if tags.len() == 0 {
        None
    } else {
        let rest = spec_last_host(tags.drop_first());
        match tags[0] {
            Tag::PublicKeyLiveEvent { public_key, relay_url, marker, proof_sig } => if marker
                is Host {
                match rest {
                    Some(h) => Some(h),
                    None => Some(
                        LiveEventHostModel {
                            public_key: public_key,
                            relay_url: opt_str_view(relay_url),
                            proof_sig: opt_str_view(proof_sig),
                        },
                    ),
                }
            } else {
                rest
            },
            _ => rest,
        }
    }
}

/// The speaker entries, in tag order.
pub open spec fn spec_speakers(tags: Seq<Tag>) -> Seq<(PublicKey, Option<Seq<char>>)>
    decreases tags.len(),
{
    if tags.len() == 0 {
        Seq::empty()
    } else {
        let rest = spec_speakers(tags.drop_first());
        match tags[0] {
            Tag::PublicKeyLiveEvent { public_key, relay_url, marker, .. } => if marker
                is Speaker {
                seq![(public_key, opt_str_view(relay_url))] + rest
            } else {
                rest
            },
            _ => rest,
        }
    }
}

/// The hashtags, in tag order.
pub open spec fn spec_hashtags(tags: Seq<Tag>) -> Seq<Seq<char>>
    decreases tags.len(),
{
    if tags.len() == 0 {
        Seq::empty()
    } else {
        let rest = spec_hashtags(tags.drop_first());
        match tags[0] {
            Tag::Hashtag(s) => seq![s@] + rest,
            _ => rest,
        }
    }
}

/// Law (round trip, single-valued fields): folding a tag set sets the title
/// to the last title tag's content and the start time to the last start tag's
/// value; when the set names none, the field keeps its prior value — for a
/// fresh record, unset.
pub proof fn lemma_fold_title_starts(m: LiveEventModel, tags: Seq<Tag>)
    ensures
        spec_fold_tags(m, tags).title == (match spec_last_title(tags) {
            Some(t) => Some(t),
            None => m.title,
        }),
        spec_fold_tags(m, tags).starts == (match spec_last_starts(tags) {
            Some(t) => Some(t),
            None => m.starts,
        }),
    decreases tags.len(),
{
    if tags.len() > 0 {
        lemma_fold_title_starts(spec_apply_tag(m, tags[0]), tags.drop_first());
    }
}

/// Law (round trip, host): the host is the last host-marked participant tag —
/// duplication overwrites, last one wins — and a set naming none leaves the
/// field as it was.
pub proof fn lemma_fold_host(m: LiveEventModel, tags: Seq<Tag>)
    ensures
        spec_fold_tags(m, tags).host == (match spec_last_host(tags) {
            Some(h) => Some(h),
            None => m.host,
        }),
    decreases tags.len(),
{
    if tags.len() > 0 {
        lemma_fold_host(spec_apply_tag(m, tags[0]), tags.drop_first());
    }
}

/// Law (round trip, list fields): folding appends the speaker entries and the
/// hashtags in tag order, leaving whatever was already there in front.
pub proof fn lemma_fold_speakers_hashtags(m: LiveEventModel, tags: Seq<Tag>)
    ensures
        spec_fold_tags(m, tags).speakers == m.speakers + spec_speakers(tags),
        spec_fold_tags(m, tags).hashtags == m.hashtags + spec_hashtags(tags),
    decreases tags.len(),
{
    if tags.len() == 0 {
        assert(m.speakers + spec_speakers(tags) =~= m.speakers);
        assert(m.hashtags + spec_hashtags(tags) =~= m.hashtags);
    } else {
        let m1 = spec_apply_tag(m, tags[0]);
        lemma_fold_speakers_hashtags(m1, tags.drop_first());
        assert(m1.speakers + spec_speakers(tags.drop_first()) =~= m.speakers + spec_speakers(
            tags,
        ));
        assert(m1.hashtags + spec_hashtags(tags.drop_first()) =~= m.hashtags + spec_hashtags(
            tags,
        ));
    }
}

} // verus!
