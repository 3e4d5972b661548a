//! The sync driver: turning upstream room state into published snapshots.
//!
//! On each upstream cycle the room list is filtered and assembled into a
//! `StateDocument`, canonically serialized, and published to the channel only
//! if the bytes differ from what was last published — identical consecutive
//! states are never redistributed. Filtering also yields the encrypted-media
//! references whose cache population is triggered as detached best-effort
//! work.
use vstd::prelude::*;

use crate::bytes::bytes_eq;
use crate::bytes::copy_bytes;
use crate::channel::ChannelView;
use crate::channel::LatestValueChannel;
use crate::channel::SubscriberView;
use crate::channel::spec_poll;
use crate::channel::spec_publish;
use crate::codec::encode;
use crate::codec::opt_view;
use crate::codec::spec_encode;
use crate::media::MediaRef;
use crate::media::spec_avatar_field;
use crate::media::thumbnail;
use crate::snapshot::RoomMember;
use crate::snapshot::RoomSnapshot;
use crate::snapshot::StateDocument;

verus! {

/// What one upstream timeline record is, once classified: an original,
/// unredacted room message — possibly carrying an encrypted media reference —
/// or anything else.
pub enum EventKind {
    OriginalMessage { media: Option<MediaRef> },
    Other,
}

/// One upstream timeline record: its raw encoded form plus its
/// classification.
pub struct UpstreamEvent {
    pub raw: Vec<u8>,
    pub kind: EventKind,
}

/// The raw records of the original room messages, in timeline order;
/// every other event shape is dropped from the outward snapshot.
pub open spec fn spec_kept(evs: Seq<UpstreamEvent>) -> Seq<Seq<u8>>
    decreases evs.len(),
{
    if evs.len() == 0 {
        Seq::empty()
    } else {
        spec_kept(evs.drop_last()) + (if evs.last().kind is OriginalMessage {
            seq![evs.last().raw@]
        } else {
            Seq::empty()
        })
    }
}

/// The `(server, media id)` pairs of the original messages that carry
/// encrypted media, in timeline order: these trigger cache population.
pub open spec fn spec_media_refs(evs: Seq<UpstreamEvent>) -> Seq<(Seq<u8>, Seq<u8>)>
    decreases evs.len(),
{
    if evs.len() == 0 {
        Seq::empty()
    } else {
        spec_media_refs(evs.drop_last()) + (match evs.last().kind {
            EventKind::OriginalMessage { media: Some(m) } => seq![(m.server@, m.media_id@)],
            _ => Seq::empty(),
        })
    }
}

/// Filters a room's timeline to the original room-message records and
/// collects the encrypted-media references to cache as a side effect.
pub fn filter_timeline(events: &Vec<UpstreamEvent>) -> (r: (Vec<Vec<u8>>, Vec<MediaRef>))
    ensures
        r.0@.map_values(|e: Vec<u8>| e@) == spec_kept(events@),
        r.1@.map_values(|m: MediaRef| (m.server@, m.media_id@)) == spec_media_refs(events@),
{
    let mut kept: Vec<Vec<u8>> = Vec::new();
    let mut refs: Vec<MediaRef> = Vec::new();
    let mut i: usize = 0;
    assert(kept@.map_values(|e: Vec<u8>| e@) =~= Seq::<Seq<u8>>::empty());
    assert(refs@.map_values(|m: MediaRef| (m.server@, m.media_id@)) =~= Seq::<(
        Seq<u8>,
        Seq<u8>,
    )>::empty());
    while i < events.len()
        invariant
            i <= events.len(),
            kept@.map_values(|e: Vec<u8>| e@) == spec_kept(events@.take(i as int)),
            refs@.map_values(|m: MediaRef| (m.server@, m.media_id@)) == spec_media_refs(
                events@.take(i as int),
            ),
        decreases events.len() - i,
    {
        let ghost pre_kept = kept@.map_values(|e: Vec<u8>| e@);
        let ghost pre_refs = refs@.map_values(|m: MediaRef| (m.server@, m.media_id@));
        match &events[i].kind {
            EventKind::OriginalMessage { media } => {
                kept.push(copy_bytes(&events[i].raw));
                assert(kept@.map_values(|e: Vec<u8>| e@) =~= pre_kept.push(events@[i as int].raw@));
                match media {
                    Some(m) => {
                        refs.push(
                            MediaRef {
                                server: copy_bytes(&m.server),
                                media_id: copy_bytes(&m.media_id),
                            },
                        );
                        assert(refs@.map_values(|m: MediaRef| (m.server@, m.media_id@))
                            =~= pre_refs.push(
                            (
                                events@[i as int].kind->OriginalMessage_media->Some_0.server@,
                                events@[i as int].kind->OriginalMessage_media->Some_0.media_id@,
                            ),
                        ));
                    },
                    None => {},
                }
            },
            EventKind::Other => {},
        }
        proof {
            assert(events@.take(i + 1).drop_last() =~= events@.take(i as int));
            assert(events@.take(i + 1).last() == events@[i as int]);
        }
        i = i + 1;
    }
    assert(events@.take(events@.len() as int) =~= events@);
    (kept, refs)
}

/// Assembles one room's snapshot from upstream data: the avatar thumbnail is
/// resolved (empty sentinel where it cannot be), the timeline is filtered to
/// original room messages, and the encrypted-media references found on the
/// way are handed back for cache population.
pub fn build_room_snapshot(
    homeserver: &Vec<u8>,
    room_id: Vec<u8>,
    name: Option<Vec<u8>>,
    avatar_mxc: Option<Vec<u8>>,
    members: Vec<RoomMember>,
    timeline: &Vec<UpstreamEvent>,
    unread_count: u64,
    is_direct: bool,
) -> (r: (RoomSnapshot, Vec<MediaRef>))
    ensures
        r.0.room_id@ == room_id@,
        opt_view(r.0.name) == opt_view(name),
        r.0.avatar@ == spec_avatar_field(homeserver@, opt_view(avatar_mxc)),
        r.0.members@ == members@,
        r.0.events@.map_values(|e: Vec<u8>| e@) == spec_kept(timeline@),
        r.0.unread_count == unread_count,
        r.0.is_direct == is_direct,
        r.1@.map_values(|m: MediaRef| (m.server@, m.media_id@)) == spec_media_refs(timeline@),
{
    let avatar = thumbnail(homeserver, &avatar_mxc);
    let (events, media) = filter_timeline(timeline);
    let snapshot = RoomSnapshot { room_id, name, avatar, members, events, unread_count, is_direct };
    (snapshot, media)
}

/// One diff-checked publish cycle over the driver's last-published bytes and
/// the channel: the new serialization is published exactly where it differs.
pub open spec fn spec_cycle(last: Seq<u8>, c: ChannelView, enc: Seq<u8>) -> (
    Seq<u8>,
    ChannelView,
    bool,
)
    recommends
        c.version < u64::MAX,
{
    if enc == last {
        (enc, c, false)
    } else {
        (enc, spec_publish(c, enc), true)
    }
}

/// The sole writer to the channel: it remembers the serialization it last
/// published and suppresses byte-identical snapshots.
pub struct SyncDriver {
    last: Vec<u8>,
}

impl View for SyncDriver {
    type V = Seq<u8>;

    closed spec fn view(&self) -> Seq<u8> {
        self.last@
    }
}

impl SyncDriver {
    /// A fresh driver that has published nothing.
    pub fn new() -> (d: Self)
        ensures
            d@ == Seq::<u8>::empty(),
    {
        SyncDriver { last: Vec::new() }
    }

    /// One sync cycle: canonically serialize `doc`, compare to the last
    /// published bytes, publish only if different. Returns whether a publish
    /// happened; the channel and version stand untouched where it did not.
    pub fn cycle(&mut self, doc: &StateDocument, ch: &mut LatestValueChannel) -> (published: bool)
        requires
            old(ch)@.version < u64::MAX,
        ensures
            (final(self)@, final(ch)@, published) == spec_cycle(
                old(self)@,
                old(ch)@,
                spec_encode(*doc),
            ),
    {
        let enc = encode(doc);
        if bytes_eq(&enc, self.last.as_slice()) {
            self.last = enc;
            false
        } else {
            self.last = copy_bytes(&enc);
            ch.publish(enc);
            true
        }
    }
}

/// Diff suppression: when two consecutive cycles serialize to identical
/// bytes, the second cycle publishes nothing, the channel — version included
/// — stands exactly as after the first, and a write loop that has already
/// observed the first state sees no change, so it emits no duplicate line.
pub proof fn lemma_diff_suppression(
    last: Seq<u8>,
    c: ChannelView,
    enc1: Seq<u8>,
    enc2: Seq<u8>,
    s: SubscriberView,
)
    requires
        c.version < u64::MAX,
        enc2 == enc1,
        s.last_seen == Some(spec_cycle(last, c, enc1).1.version),
    ensures
        ({
            let t1 = spec_cycle(last, c, enc1);
            let t2 = spec_cycle(t1.0, t1.1, enc2);
            &&& !t2.2
            &&& t2.1 == t1.1
            &&& t2.1.version == t1.1.version
            &&& !spec_poll(t2.1, s).changed
        }),
{
}

} // verus!
