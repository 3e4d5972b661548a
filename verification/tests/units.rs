//! Unit coverage for the codec, the command decoder, routing, media
//! planning, line buffering and the loop decisions.
use mnotify::codec::encode;
use mnotify::commands::decode;
use mnotify::commands::Command;
use mnotify::connection::read_step;
use mnotify::connection::startup_action;
use mnotify::connection::LoopStep;
use mnotify::connection::ReadOutcome;
use mnotify::connection::StartupAction;
use mnotify::dispatch::route;
use mnotify::dispatch::BackendAction;
use mnotify::driver::build_room_snapshot;
use mnotify::driver::filter_timeline;
use mnotify::driver::EventKind;
use mnotify::driver::UpstreamEvent;
use mnotify::lines::LineBuffer;
use mnotify::media::cache_path;
use mnotify::media::parse_mxc;
use mnotify::media::thumbnail;
use mnotify::media::MediaRef;
use mnotify::snapshot::RoomMember;
use mnotify::snapshot::RoomSnapshot;
use mnotify::snapshot::StateDocument;

#[test]
fn encode_one_bare_room_exactly() {
    let doc = StateDocument {
        rooms: vec![RoomSnapshot {
            room_id: b"!r:x".to_vec(),
            name: None,
            avatar: Vec::new(),
            members: Vec::new(),
            events: Vec::new(),
            unread_count: 0,
            is_direct: false,
        }],
    };
    assert_eq!(
        encode(&doc),
        b"[{\"room_id\":\"!r:x\",\"name\":null,\"avatar\":\"\",\"members\":[],\"events\":[],\"unread_count\":0,\"is_direct\":false}]".to_vec()
    );
}

#[test]
fn encode_full_room_with_member_events_and_escaping() {
    let doc = StateDocument {
        rooms: vec![RoomSnapshot {
            room_id: b"!r:x".to_vec(),
            name: Some(b"a\"b\\c\nd".to_vec()),
            avatar: b"http://a/t".to_vec(),
            members: vec![
                RoomMember {
                    user_id: b"@u:x".to_vec(),
                    name: b"u".to_vec(),
                    display_name: None,
                    avatar: Vec::new(),
                },
                RoomMember {
                    user_id: b"@v:x".to_vec(),
                    name: b"v".to_vec(),
                    display_name: Some(b"V\x01".to_vec()),
                    avatar: b"http://a/v".to_vec(),
                },
            ],
            events: vec![b"{\"a\":1}".to_vec(), b"{\"b\":2}".to_vec()],
            unread_count: 1234,
            is_direct: true,
        }],
    };
    let expected: Vec<u8> = [
        &b"[{\"room_id\":\"!r:x\",\"name\":\"a\\\"b\\\\c\\nd\",\"avatar\":\"http://a/t\","[..],
        &b"\"members\":[{\"user_id\":\"@u:x\",\"name\":\"u\",\"display_name\":null,\"avatar\":\"\"},"[..],
        &b"{\"user_id\":\"@v:x\",\"name\":\"v\",\"display_name\":\"V\\u0001\",\"avatar\":\"http://a/v\"}],"[..],
        &b"\"events\":[{\"a\":1},{\"b\":2}],\"unread_count\":1234,\"is_direct\":true}]"[..],
    ]
    .concat();
    assert_eq!(encode(&doc), expected);
}

#[test]
fn encode_empty_document() {
    let doc = StateDocument { rooms: Vec::new() };
    assert_eq!(encode(&doc), b"[]".to_vec());
}

#[test]
fn encode_largest_unread_count() {
    let doc = StateDocument {
        rooms: vec![RoomSnapshot {
            room_id: b"!r:x".to_vec(),
            name: None,
            avatar: Vec::new(),
            members: Vec::new(),
            events: Vec::new(),
            unread_count: u64::MAX,
            is_direct: false,
        }],
    };
    let rendered = encode(&doc);
    let text = String::from_utf8(rendered).unwrap();
    assert!(text.contains("\"unread_count\":18446744073709551615,"));
}

#[test]
fn encode_is_deterministic_and_change_sensitive() {
    let make = |unread: u64| StateDocument {
        rooms: vec![RoomSnapshot {
            room_id: b"!r:x".to_vec(),
            name: None,
            avatar: Vec::new(),
            members: Vec::new(),
            events: Vec::new(),
            unread_count: unread,
            is_direct: false,
        }],
    };
    assert_eq!(encode(&make(7)), encode(&make(7)));
    assert_ne!(encode(&make(7)), encode(&make(8)));
}

#[test]
fn decode_send_with_reply() {
    let line =
        b"{\"type\":\"send\",\"room_id\":\"!a:x\",\"reply_to\":\"$e:x\",\"message\":\"hi\"}".to_vec();
    assert_eq!(
        decode(&line).unwrap(),
        Command::Send {
            room_id: b"!a:x".to_vec(),
            reply_to: Some(b"$e:x".to_vec()),
            message: b"hi".to_vec(),
        }
    );
}

#[test]
fn decode_send_with_null_reply_and_escapes() {
    let line =
        b" { \"type\" : \"send\" , \"room_id\" : \"!a:x\" , \"reply_to\" : null , \"message\" : \"a\\\"b\\\\c\\nd\" } "
            .to_vec();
    assert_eq!(
        decode(&line).unwrap(),
        Command::Send {
            room_id: b"!a:x".to_vec(),
            reply_to: None,
            message: b"a\"b\\c\nd".to_vec(),
        }
    );
}

#[test]
fn decode_send_without_reply_field() {
    let line = b"{\"type\":\"send\",\"room_id\":\"!a:x\",\"message\":\"hi\"}".to_vec();
    assert_eq!(
        decode(&line).unwrap(),
        Command::Send { room_id: b"!a:x".to_vec(), reply_to: None, message: b"hi".to_vec() }
    );
}

#[test]
fn decode_attach_under_each_alias() {
    for ty in [&b"file"[..], &b"attachment"[..], &b"upload"[..]] {
        let mut line = b"{\"type\":\"".to_vec();
        line.extend_from_slice(ty);
        line.extend_from_slice(b"\",\"room_id\":\"!a:x\",\"path\":\"/p/q\"}");
        assert_eq!(
            decode(&line).unwrap(),
            Command::Attach { room_id: b"!a:x".to_vec(), path: b"/p/q".to_vec() }
        );
    }
}

#[test]
fn decode_subscribe() {
    let line = b"{\"type\":\"subscribe\",\"room_id\":\"!a:x\"}".to_vec();
    assert_eq!(decode(&line).unwrap(), Command::Subscribe { room_id: b"!a:x".to_vec() });
}

#[test]
fn decode_rejects_malformed_lines() {
    // Unknown discriminant.
    assert!(decode(&b"{\"type\":\"bogus\"}".to_vec()).is_err());
    // Missing required fields.
    assert!(decode(&b"{\"type\":\"send\",\"room_id\":\"!a:x\"}".to_vec()).is_err());
    assert!(decode(&b"{\"type\":\"subscribe\"}".to_vec()).is_err());
    // A field foreign to the variant.
    assert!(decode(&b"{\"type\":\"subscribe\",\"room_id\":\"!a:x\",\"path\":\"p\"}".to_vec()).is_err());
    // Repeated key.
    assert!(decode(&b"{\"type\":\"subscribe\",\"room_id\":\"!a:x\",\"room_id\":\"!a:x\"}".to_vec()).is_err());
    // Unknown key.
    assert!(decode(&b"{\"type\":\"subscribe\",\"room_id\":\"!a:x\",\"junk\":\"j\"}".to_vec()).is_err());
    // Null where a string is required.
    assert!(decode(&b"{\"type\":\"send\",\"room_id\":null,\"message\":\"m\"}".to_vec()).is_err());
    // Not an object, empty input, trailing garbage, unterminated string.
    assert!(decode(&b"[]".to_vec()).is_err());
    assert!(decode(&b"".to_vec()).is_err());
    assert!(decode(&b"{\"type\":\"subscribe\",\"room_id\":\"!a:x\"} x".to_vec()).is_err());
    assert!(decode(&b"{\"type\":\"subscribe\",\"room_id\":\"!a:x".to_vec()).is_err());
}

#[test]
fn route_each_variant() {
    assert_eq!(
        route(Command::Send {
            room_id: b"!a:x".to_vec(),
            reply_to: None,
            message: b"m".to_vec(),
        }),
        BackendAction::SendText { room_id: b"!a:x".to_vec(), message: b"m".to_vec() }
    );
    assert_eq!(
        route(Command::Send {
            room_id: b"!a:x".to_vec(),
            reply_to: Some(b"$e:x".to_vec()),
            message: b"m".to_vec(),
        }),
        BackendAction::SendReply {
            room_id: b"!a:x".to_vec(),
            event_id: b"$e:x".to_vec(),
            message: b"m".to_vec(),
        }
    );
    assert_eq!(
        route(Command::Attach { room_id: b"!a:x".to_vec(), path: b"/p".to_vec() }),
        BackendAction::SendAttachment { room_id: b"!a:x".to_vec(), path: b"/p".to_vec() }
    );
    assert_eq!(
        route(Command::Subscribe { room_id: b"!a:x".to_vec() }),
        BackendAction::SubscribeRoom { room_id: b"!a:x".to_vec() }
    );
}

#[test]
fn line_buffer_holds_partial_lines_across_reads() {
    let mut buf = LineBuffer::new();
    assert_eq!(buf.feed(b"ab"), Vec::<Vec<u8>>::new());
    assert_eq!(buf.feed(b"c\nd"), vec![b"abc".to_vec()]);
    assert_eq!(buf.feed(b"\n\n"), vec![b"d".to_vec(), b"".to_vec()]);
}

#[test]
fn parse_mxc_accepts_only_well_formed_references() {
    let m = parse_mxc(&b"mxc://example.org/abcdef".to_vec()).unwrap();
    assert_eq!(m, MediaRef { server: b"example.org".to_vec(), media_id: b"abcdef".to_vec() });
    assert!(parse_mxc(&b"http://example.org/abc".to_vec()).is_none());
    assert!(parse_mxc(&b"mxc://example.org/".to_vec()).is_none());
    assert!(parse_mxc(&b"mxc:///abc".to_vec()).is_none());
    assert!(parse_mxc(&b"mxc://example.org".to_vec()).is_none());
    assert!(parse_mxc(&b"mxc://example.org/a/b".to_vec()).is_none());
}

#[test]
fn thumbnail_resolves_or_falls_back_to_the_empty_sentinel() {
    let hs = b"https://hs.example.org/".to_vec();
    assert_eq!(
        thumbnail(&hs, &Some(b"mxc://example.org/abcdef".to_vec())),
        b"https://hs.example.org/_matrix/media/v3/thumbnail/example.org/abcdef?width=50&height=50&method=scale".to_vec()
    );
    assert_eq!(thumbnail(&hs, &None), Vec::<u8>::new());
    assert_eq!(thumbnail(&hs, &Some(b"not-an-mxc".to_vec())), Vec::<u8>::new());
}

#[test]
fn cache_path_is_content_addressed() {
    assert_eq!(cache_path(&b"abcdef".to_vec()), b"/tmp/abcdef".to_vec());
}

#[test]
fn filter_timeline_keeps_originals_and_collects_media() {
    let events = vec![
        UpstreamEvent { raw: b"{\"m\":1}".to_vec(), kind: EventKind::OriginalMessage { media: None } },
        UpstreamEvent { raw: b"{\"x\":2}".to_vec(), kind: EventKind::Other },
        UpstreamEvent {
            raw: b"{\"m\":3}".to_vec(),
            kind: EventKind::OriginalMessage {
                media: Some(MediaRef { server: b"s".to_vec(), media_id: b"id3".to_vec() }),
            },
        },
    ];
    let (kept, media) = filter_timeline(&events);
    assert_eq!(kept, vec![b"{\"m\":1}".to_vec(), b"{\"m\":3}".to_vec()]);
    assert_eq!(media, vec![MediaRef { server: b"s".to_vec(), media_id: b"id3".to_vec() }]);
}

#[test]
fn build_room_snapshot_assembles_all_fields() {
    let hs = b"https://hs.example.org/".to_vec();
    let timeline = vec![
        UpstreamEvent { raw: b"{\"m\":1}".to_vec(), kind: EventKind::OriginalMessage { media: None } },
        UpstreamEvent { raw: b"{\"x\":2}".to_vec(), kind: EventKind::Other },
    ];
    let (snap, media) = build_room_snapshot(
        &hs,
        b"!r:x".to_vec(),
        Some(b"general".to_vec()),
        Some(b"mxc://example.org/av1".to_vec()),
        vec![RoomMember {
            user_id: b"@u:x".to_vec(),
            name: b"u".to_vec(),
            display_name: None,
            avatar: Vec::new(),
        }],
        &timeline,
        3,
        false,
    );
    assert_eq!(snap.room_id, b"!r:x".to_vec());
    assert_eq!(snap.name, Some(b"general".to_vec()));
    assert_eq!(
        snap.avatar,
        b"https://hs.example.org/_matrix/media/v3/thumbnail/example.org/av1?width=50&height=50&method=scale".to_vec()
    );
    assert_eq!(snap.members.len(), 1);
    assert_eq!(snap.events, vec![b"{\"m\":1}".to_vec()]);
    assert_eq!(snap.unread_count, 3);
    assert!(!snap.is_direct);
    assert!(media.is_empty());
}

#[test]
fn read_step_decides_each_outcome() {
    assert_eq!(read_step(&ReadOutcome::Bytes { n: 0 }), LoopStep::Close);
    assert_eq!(read_step(&ReadOutcome::Bytes { n: 17 }), LoopStep::Process);
    assert_eq!(read_step(&ReadOutcome::WouldBlock), LoopStep::Retry);
    assert_eq!(read_step(&ReadOutcome::Failed), LoopStep::Close);
}

#[test]
fn startup_aborts_only_when_a_stale_socket_cannot_be_removed() {
    assert_eq!(startup_action(false, false), StartupAction::Bind);
    assert_eq!(startup_action(false, true), StartupAction::Bind);
    assert_eq!(startup_action(true, true), StartupAction::Bind);
    assert_eq!(startup_action(true, false), StartupAction::Abort);
}
