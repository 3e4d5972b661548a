//! End-to-end scenarios over the fan-out core.
use mnotify::channel::LatestValueChannel;
use mnotify::commands::Command;
use mnotify::connection::process_chunk;
use mnotify::connection::write_step;
use mnotify::connection::WriteAction;
use mnotify::driver::SyncDriver;
use mnotify::lines::LineBuffer;
use mnotify::media::ensure_cached_plan;
use mnotify::media::CacheDecision;
use mnotify::media::MediaRef;
use mnotify::snapshot::RoomSnapshot;
use mnotify::snapshot::StateDocument;

fn small_doc(name: &[u8], unread: u64) -> StateDocument {
    StateDocument {
        rooms: vec![RoomSnapshot {
            room_id: b"!r:example.org".to_vec(),
            name: Some(name.to_vec()),
            avatar: Vec::new(),
            members: Vec::new(),
            events: Vec::new(),
            unread_count: unread,
            is_direct: false,
        }],
    }
}

#[test]
fn diff_suppression_second_identical_cycle_publishes_nothing() {
    let mut driver = SyncDriver::new();
    let mut ch = LatestValueChannel::new(Vec::new());
    let mut sub = ch.subscribe();

    let doc_a = small_doc(b"general", 1);
    assert!(driver.cycle(&doc_a, &mut ch));
    let (_, changed) = ch.poll(&mut sub);
    assert!(changed);

    // A structurally identical document serializes identically: no publish,
    // the version does not advance, and the write loop sees no change, so no
    // duplicate line is emitted.
    let version_after_first = ch.version();
    let doc_b = small_doc(b"general", 1);
    assert!(!driver.cycle(&doc_b, &mut ch));
    assert_eq!(ch.version(), version_after_first);
    assert_eq!(write_step(&ch, &mut sub), WriteAction::Backoff);

    // A real change publishes again.
    let doc_c = small_doc(b"general", 2);
    assert!(driver.cycle(&doc_c, &mut ch));
    let (_, changed) = ch.poll(&mut sub);
    assert!(changed);
}

#[test]
fn latest_wins_poll_observes_only_the_newest_value() {
    let mut ch = LatestValueChannel::new(b"v0".to_vec());
    let mut sub = ch.subscribe();
    ch.publish(b"v1".to_vec());
    ch.publish(b"v2".to_vec());
    ch.publish(b"v3".to_vec());
    let (value, changed) = ch.poll(&mut sub);
    assert!(changed);
    assert_eq!(value, b"v3".to_vec());
    // Nothing new since: the same value, no change reported.
    let (value, changed) = ch.poll(&mut sub);
    assert!(!changed);
    assert_eq!(value, b"v3".to_vec());
}

#[test]
fn per_subscriber_independence_each_sees_a_publish_exactly_once() {
    let mut ch = LatestValueChannel::new(Vec::new());
    let mut early = ch.subscribe();
    // Drain the subscription-time state so only the shared publish counts.
    let (_, changed) = ch.poll(&mut early);
    assert!(changed);

    ch.publish(b"shared".to_vec());
    let mut late = ch.subscribe();

    // The late subscriber polls first; that must not affect the early one.
    let (v_late, c_late) = ch.poll(&mut late);
    assert!(c_late);
    assert_eq!(v_late, b"shared".to_vec());

    let (v_early, c_early) = ch.poll(&mut early);
    assert!(c_early);
    assert_eq!(v_early, b"shared".to_vec());

    // Exactly once each.
    assert!(!ch.poll(&mut late).1);
    assert!(!ch.poll(&mut early).1);
}

#[test]
fn cache_hit_avoids_network_second_call_is_a_hit_at_the_same_path() {
    let hs = b"https://hs.example.org/".to_vec();
    let media = MediaRef { server: b"example.org".to_vec(), media_id: b"abcdef".to_vec() };

    // First call: nothing on disk yet, so a fetch is planned.
    let first = ensure_cached_plan(&hs, &media, false);
    let fetch_path = match first {
        CacheDecision::Fetch { url, path } => {
            assert_eq!(
                url,
                b"https://hs.example.org/_matrix/media/v3/download/example.org/abcdef?width=50&height=50&method=scale".to_vec()
            );
            path
        }
        CacheDecision::Hit { .. } => panic!("first call must plan a fetch"),
    };
    assert_eq!(fetch_path, b"/tmp/abcdef".to_vec());

    // The fetch stored the file at that deterministic path; the second call
    // sees it present and plans a hit at the very same path: zero network or
    // decrypt work, and the stored bytes are never rewritten.
    let second = ensure_cached_plan(&hs, &media, true);
    match second {
        CacheDecision::Hit { path } => assert_eq!(path, fetch_path),
        CacheDecision::Fetch { .. } => panic!("second call must be a hit"),
    }
}

#[test]
fn malformed_line_is_dropped_and_the_next_line_still_dispatches() {
    let mut buf = LineBuffer::new();
    let cmds = process_chunk(
        &mut buf,
        b"{\"type\":\"bogus\"}\n{\"type\":\"subscribe\",\"room_id\":\"!a:x\"}\n",
    );
    assert_eq!(cmds.len(), 1);
    assert_eq!(cmds[0], Command::Subscribe { room_id: b"!a:x".to_vec() });
}

#[test]
fn connection_isolation_a_dead_subscriber_does_not_stall_the_rest() {
    let mut ch = LatestValueChannel::new(Vec::new());
    let mut doomed = ch.subscribe();
    let mut healthy = ch.subscribe();

    ch.publish(b"one".to_vec());
    let (_, changed) = ch.poll(&mut doomed);
    assert!(changed);
    // The doomed connection closes mid-stream: its subscriber is simply
    // dropped and never polls again.
    drop(doomed);

    // Publishing goes on and the healthy connection keeps receiving.
    ch.publish(b"two".to_vec());
    match write_step(&ch, &mut healthy) {
        WriteAction::Emit { line } => assert_eq!(line, b"two\n".to_vec()),
        WriteAction::Backoff => panic!("healthy subscriber must see the change"),
    }
    ch.publish(b"three".to_vec());
    match write_step(&ch, &mut healthy) {
        WriteAction::Emit { line } => assert_eq!(line, b"three\n".to_vec()),
        WriteAction::Backoff => panic!("healthy subscriber must see the change"),
    }
    assert_eq!(write_step(&ch, &mut healthy), WriteAction::Backoff);
}
