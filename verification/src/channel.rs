//! The single-slot, last-write-wins broadcast primitive.
//!
//! One producer publishes serialized snapshots; each subscriber independently
//! tracks the last version it has observed. A poll atomically yields both the
//! current value and whether it is news to that subscriber, so no fresh
//! publish can slip between reading the changed flag and reading the value.
use vstd::prelude::*;

use crate::bytes::copy_bytes;

verus! {

/// Mathematical state of the channel: the held value and its version.
pub ghost struct ChannelView {
    pub value: Seq<u8>,
    pub version: u64,
}

/// Mathematical state of a subscriber: the version it has last observed,
/// or `None` if it has observed nothing yet.
pub ghost struct SubscriberView {
    pub last_seen: Option<u64>,
}

/// Everything one poll yields: the channel afterwards (always unchanged),
/// the subscriber afterwards, and the observed value and changed flag.
pub ghost struct PollTransition {
    pub channel: ChannelView,
    pub subscriber: SubscriberView,
    pub value: Seq<u8>,
    pub changed: bool,
}

/// Publishing replaces the value unconditionally and advances the version.
pub open spec fn spec_publish(c: ChannelView, v: Seq<u8>) -> ChannelView
    recommends
        c.version < u64::MAX,
{
    ChannelView { value: v, version: (c.version + 1) as u64 }
}

/// A new subscriber has observed nothing, so its first poll reports a change.
pub open spec fn spec_subscribe(c: ChannelView) -> SubscriberView {
    SubscriberView { last_seen: None }
}

/// One poll: the channel is untouched, the subscriber now stands at the
/// current version, and the change flag says whether it was behind.
pub open spec fn spec_poll(c: ChannelView, s: SubscriberView) -> PollTransition {
    PollTransition {
        channel: c,
        subscriber: SubscriberView { last_seen: Some(c.version) },
        value: c.value,
        changed: s.last_seen != Some(c.version),
    }
}

/// A subscriber never stands ahead of the channel it watches.
pub open spec fn sub_valid(c: ChannelView, s: SubscriberView) -> bool {
    match s.last_seen {
        None => true,
        Some(v) => v <= c.version,
    }
}

/// Holds exactly one value plus a monotonically increasing version counter.
pub struct LatestValueChannel {
    value: Vec<u8>,
    version: u64,
}

/// An independent reader handle; polling it never touches the channel.
pub struct Subscriber {
    last_seen: Option<u64>,
}

impl View for LatestValueChannel {
    type V = ChannelView;

    closed spec fn view(&self) -> ChannelView {
        ChannelView { value: self.value@, version: self.version }
    }
}

impl View for Subscriber {
    type V = SubscriberView;

    closed spec fn view(&self) -> SubscriberView {
        SubscriberView { last_seen: self.last_seen }
    }
}

impl LatestValueChannel {
    /// A channel holding `initial` at version zero.
    pub fn new(initial: Vec<u8>) -> (c: Self)
        ensures
            c@.value == initial@,
            c@.version == 0,
    {
        LatestValueChannel { value: initial, version: 0 }
    }

    /// The current version: how many publishes this channel has seen.
    pub fn version(&self) -> (v: u64)
        ensures
            v == self@.version,
    {
        self.version
    }

    /// Replaces the held value and advances the version; never blocks,
    /// never fails, intermediate values are simply lost.
    pub fn publish(&mut self, value: Vec<u8>)
        requires
            old(self)@.version < u64::MAX,
        ensures
            final(self)@ == spec_publish(old(self)@, value@),
    {
        self.value = value;
        self.version = self.version + 1;
    }

    /// A new subscriber, behind the current value: its first poll is
    /// guaranteed to report a change.
    pub fn subscribe(&self) -> (s: Subscriber)
        ensures
            s@ == spec_subscribe(self@),
            sub_valid(self@, s@),
            spec_poll(self@, s@).changed,
    {
        Subscriber { last_seen: None }
    }

    /// Atomically observes the current value together with whether it is new
    /// to this subscriber, and advances the subscriber's last-seen version.
    pub fn poll(&self, sub: &mut Subscriber) -> (r: (Vec<u8>, bool))
        ensures
            r.0@ == spec_poll(self@, old(sub)@).value,
            r.1 == spec_poll(self@, old(sub)@).changed,
            final(sub)@ == spec_poll(self@, old(sub)@).subscriber,
            sub_valid(self@, final(sub)@),
    {
        let changed = match sub.last_seen {
            None => true,
            Some(v) => v != self.version,
        };
        sub.last_seen = Some(self.version);
        (copy_bytes(&self.value), changed)
    }
}

/// Latest wins: after publishes of `v1`, `v2`, `v3` in order with no poll in
/// between, a subscriber's next poll observes `v3` — never `v1` or `v2` —
/// and reports a change.
pub proof fn lemma_latest_wins(
    c: ChannelView,
    s: SubscriberView,
    v1: Seq<u8>,
    v2: Seq<u8>,
    v3: Seq<u8>,
)
    requires
        c.version + 3 <= u64::MAX,
        sub_valid(c, s),
    ensures
        ({
            let c3 = spec_publish(spec_publish(spec_publish(c, v1), v2), v3);
            &&& spec_poll(c3, s).value == v3
            &&& spec_poll(c3, s).changed
        }),
{
}

/// Per-subscriber independence: after a shared publish, any two valid
/// subscribers each report the change on their next poll, and each reports it
/// exactly once — a repeated poll with no further publish reports no change.
/// A poll depends only on the channel and that subscriber's own state, so the
/// other subscriber's poll timing cannot influence it.
pub proof fn lemma_subscriber_independence(
    c: ChannelView,
    s1: SubscriberView,
    s2: SubscriberView,
    v: Seq<u8>,
)
    requires
        c.version < u64::MAX,
        sub_valid(c, s1),
        sub_valid(c, s2),
    ensures
        ({
            let c1 = spec_publish(c, v);
            &&& spec_poll(c1, s1).changed
            &&& spec_poll(c1, s2).changed
            &&& !spec_poll(c1, spec_poll(c1, s1).subscriber).changed
            &&& !spec_poll(c1, spec_poll(c1, s2).subscriber).changed
        }),
{
}

/// Connection isolation: one subscriber's poll leaves the channel exactly as
/// it was, so it neither perturbs the publisher nor changes what any other
/// subscriber's next poll or the next publish yields; a subscriber that stops
/// polling altogether takes no transition at all.
pub proof fn lemma_connection_isolation(
    c: ChannelView,
    s_gone: SubscriberView,
    s_alive: SubscriberView,
    v: Seq<u8>,
)
    ensures
        spec_poll(c, s_gone).channel == c,
        spec_poll(spec_poll(c, s_gone).channel, s_alive) == spec_poll(c, s_alive),
        spec_publish(spec_poll(c, s_gone).channel, v) == spec_publish(c, v),
{
}

} // verus!
