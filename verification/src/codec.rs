//! Canonical serialization of a `StateDocument`.
//!
//! A document is rendered as one deterministic JSON line: an array of room
//! objects with a fixed key order and a fixed string escaping, so that byte
//! equality of two renderings decides whether anything visible changed.
use vstd::prelude::*;

use crate::bytes::push_bytes;
use crate::bytes::push_dec;
use crate::bytes::spec_dec;
use crate::snapshot::RoomMember;
use crate::snapshot::RoomSnapshot;
use crate::snapshot::StateDocument;

verus! {

/// The hexadecimal digit for `n`, lower case.
pub open spec fn spec_hex_digit(n: u8) -> u8
    recommends
        n < 16,
{
    if n < 10 {
        (48 + n) as u8
    } else {
        (87 + n) as u8
    }
}

/// How one byte of a string is rendered inside JSON quotes.
pub open spec fn esc_byte(b: u8) -> Seq<u8> {
    if b == 34 {
        seq![92u8, 34u8]
    } else if b == 92 {
        seq![92u8, 92u8]
    } else if b == 10 {
        seq![92u8, 110u8]
    } else if b == 13 {
        seq![92u8, 114u8]
    } else if b == 9 {
        seq![92u8, 116u8]
    } else if b < 32 {
        seq![92u8, 117u8, 48u8, 48u8, spec_hex_digit(b / 16), spec_hex_digit(b % 16)]
    } else {
        seq![b]
    }
}

/// The escaped rendering of a whole string body.
pub open spec fn esc(s: Seq<u8>) -> Seq<u8>
    decreases s.len(),
{
    if s.len() == 0 {
        Seq::empty()
    } else {
        esc(s.drop_last()) + esc_byte(s.last())
    }
}

/// A quoted, escaped JSON string.
pub open spec fn enc_str(s: Seq<u8>) -> Seq<u8> {
    seq![34u8] + esc(s) + seq![34u8]
}

pub open spec fn lit_null() -> Seq<u8> {
    seq!['n' as u8, 'u' as u8, 'l' as u8, 'l' as u8]
}

pub open spec fn lit_true() -> Seq<u8> {
    seq!['t' as u8, 'r' as u8, 'u' as u8, 'e' as u8]
}

pub open spec fn lit_false() -> Seq<u8> {
    seq!['f' as u8, 'a' as u8, 'l' as u8, 's' as u8, 'e' as u8]
}

/// An optional string: `null` when absent.
pub open spec fn enc_opt_str(o: Option<Seq<u8>>) -> Seq<u8> {
    match o {
        None => lit_null(),
        Some(s) => enc_str(s),
    }
}

pub open spec fn enc_bool(b: bool) -> Seq<u8> {
    if b {
        lit_true()
    } else {
        lit_false()
    }
}

pub open spec fn opt_view(o: Option<Vec<u8>>) -> Option<Seq<u8>> {
    match o {
        None => None,
        Some(v) => Some(v@),
    }
}

pub open spec fn lit_user_id_key() -> Seq<u8> {
    seq!['{' as u8, '"' as u8, 'u' as u8, 's' as u8, 'e' as u8, 'r' as u8, '_' as u8, 'i' as u8,
        'd' as u8, '"' as u8, ':' as u8]
}

pub open spec fn lit_name_key() -> Seq<u8> {
    seq![',' as u8, '"' as u8, 'n' as u8, 'a' as u8, 'm' as u8, 'e' as u8, '"' as u8, ':' as u8]
}

pub open spec fn lit_display_name_key() -> Seq<u8> {
    seq![',' as u8, '"' as u8, 'd' as u8, 'i' as u8, 's' as u8, 'p' as u8, 'l' as u8, 'a' as u8,
        'y' as u8, '_' as u8, 'n' as u8, 'a' as u8, 'm' as u8, 'e' as u8, '"' as u8, ':' as u8]
}

pub open spec fn lit_avatar_key() -> Seq<u8> {
    seq![',' as u8, '"' as u8, 'a' as u8, 'v' as u8, 'a' as u8, 't' as u8, 'a' as u8, 'r' as u8,
        '"' as u8, ':' as u8]
}

pub open spec fn lit_room_id_key() -> Seq<u8> {
    seq!['{' as u8, '"' as u8, 'r' as u8, 'o' as u8, 'o' as u8, 'm' as u8, '_' as u8, 'i' as u8,
        'd' as u8, '"' as u8, ':' as u8]
}

pub open spec fn lit_members_key() -> Seq<u8> {
    seq![',' as u8, '"' as u8, 'm' as u8, 'e' as u8, 'm' as u8, 'b' as u8, 'e' as u8, 'r' as u8,
        's' as u8, '"' as u8, ':' as u8, '[' as u8]
}

pub open spec fn lit_events_key() -> Seq<u8> {
    seq![']' as u8, ',' as u8, '"' as u8, 'e' as u8, 'v' as u8, 'e' as u8, 'n' as u8, 't' as u8,
        's' as u8, '"' as u8, ':' as u8, '[' as u8]
}

pub open spec fn lit_unread_key() -> Seq<u8> {
    seq![']' as u8, ',' as u8, '"' as u8, 'u' as u8, 'n' as u8, 'r' as u8, 'e' as u8, 'a' as u8,
        'd' as u8, '_' as u8, 'c' as u8, 'o' as u8, 'u' as u8, 'n' as u8, 't' as u8, '"' as u8,
        ':' as u8]
}

pub open spec fn lit_is_direct_key() -> Seq<u8> {
    seq![',' as u8, '"' as u8, 'i' as u8, 's' as u8, '_' as u8, 'd' as u8, 'i' as u8, 'r' as u8,
        'e' as u8, 'c' as u8, 't' as u8, '"' as u8, ':' as u8]
}

/// One member object, keys in fixed order.
pub open spec fn enc_member(m: RoomMember) -> Seq<u8> {
    lit_user_id_key() + enc_str(m.user_id@) + lit_name_key() + enc_str(m.name@)
        + lit_display_name_key() + enc_opt_str(opt_view(m.display_name)) + lit_avatar_key()
        + enc_str(m.avatar@) + seq!['}' as u8]
}

/// A comma-separated member list body.
pub open spec fn enc_members(ms: Seq<RoomMember>) -> Seq<u8>
    decreases ms.len(),
{
    if ms.len() == 0 {
        Seq::empty()
    } else {
        enc_members(ms.drop_last()) + (if ms.len() == 1 {
            Seq::empty()
        } else {
            seq![',' as u8]
        }) + enc_member(ms.last())
    }
}

/// A comma-separated list of the raw, already-encoded event records.
pub open spec fn enc_events(evs: Seq<Vec<u8>>) -> Seq<u8>
    decreases evs.len(),
{
    if evs.len() == 0 {
        Seq::empty()
    } else {
        enc_events(evs.drop_last()) + (if evs.len() == 1 {
            Seq::empty()
        } else {
            seq![',' as u8]
        }) + evs.last()@
    }
}

/// One room object, keys in fixed order.
pub open spec fn enc_room(r: RoomSnapshot) -> Seq<u8> {
    lit_room_id_key() + enc_str(r.room_id@) + lit_name_key() + enc_opt_str(opt_view(r.name))
        + lit_avatar_key() + enc_str(r.avatar@) + lit_members_key() + enc_members(r.members@)
        + lit_events_key() + enc_events(r.events@) + lit_unread_key() + spec_dec(
        r.unread_count as nat,
    ) + lit_is_direct_key() + enc_bool(r.is_direct) + seq!['}' as u8]
}

/// A comma-separated room list body.
pub open spec fn enc_rooms(rs: Seq<RoomSnapshot>) -> Seq<u8>
    decreases rs.len(),
{
    if rs.len() == 0 {
        Seq::empty()
    } else {
        enc_rooms(rs.drop_last()) + (if rs.len() == 1 {
            Seq::empty()
        } else {
            seq![',' as u8]
        }) + enc_room(rs.last())
    }
}

/// The canonical serialization: a JSON array of room objects.
pub open spec fn spec_encode(d: StateDocument) -> Seq<u8> {
    seq!['[' as u8] + enc_rooms(d.rooms@) + seq![']' as u8]
}

/// Appends the escaped rendering of one byte.
fn push_esc_byte(out: &mut Vec<u8>, b: u8)
    ensures
        final(out)@ == old(out)@ + esc_byte(b),
{
    if b == 34 {
        out.push(92);
        out.push(34);
    } else if b == 92 {
        out.push(92);
        out.push(92);
    } else if b == 10 {
        out.push(92);
        out.push(110);
    } else if b == 13 {
        out.push(92);
        out.push(114);
    } else if b == 9 {
        out.push(92);
        out.push(116);
    } else if b < 32 {
        out.push(92);
        out.push(117);
        out.push(48);
        out.push(48);
        let hi = b / 16;
        let lo = b % 16;
        out.push(if hi < 10 { 48 + hi } else { 87 + hi });
        out.push(if lo < 10 { 48 + lo } else { 87 + lo });
    } else {
        out.push(b);
    }
    assert(final(out)@ =~= old(out)@ + esc_byte(b));
}

/// Appends a quoted, escaped JSON string.
fn push_str(out: &mut Vec<u8>, s: &Vec<u8>)
    ensures
        final(out)@ == old(out)@ + enc_str(s@),
{
    out.push(34);
    let ghost pre = out@;
    let mut i: usize = 0;
    while i < s.len()
        invariant
            i <= s.len(),
            out@ == pre + esc(s@.take(i as int)),
        decreases s.len() - i,
    {
        push_esc_byte(out, s[i]);
        proof {
            assert(s@.take(i + 1).drop_last() =~= s@.take(i as int));
            assert(s@.take(i + 1).last() == s@[i as int]);
        }
        i = i + 1;
    }
    assert(s@.take(s@.len() as int) =~= s@);
    out.push(34);
    assert(final(out)@ =~= old(out)@ + enc_str(s@));
}

/// Appends `null` or a quoted string.
fn push_opt_str(out: &mut Vec<u8>, o: &Option<Vec<u8>>)
    ensures
        final(out)@ == old(out)@ + enc_opt_str(opt_view(*o)),
{
    match o {
        None => {
            let lit: [u8; 4] = ['n' as u8, 'u' as u8, 'l' as u8, 'l' as u8];
            push_bytes(out, &lit);
            assert(lit@ =~= lit_null());
        },
        Some(s) => {
            push_str(out, s);
        },
    }
}

/// Appends `true` or `false`.
fn push_bool(out: &mut Vec<u8>, b: bool)
    ensures
        final(out)@ == old(out)@ + enc_bool(b),
{
    if b {
        let lit: [u8; 4] = ['t' as u8, 'r' as u8, 'u' as u8, 'e' as u8];
        push_bytes(out, &lit);
        assert(lit@ =~= lit_true());
    } else {
        let lit: [u8; 5] = ['f' as u8, 'a' as u8, 'l' as u8, 's' as u8, 'e' as u8];
        push_bytes(out, &lit);
        assert(lit@ =~= lit_false());
    }
}

/// Appends one member object.
fn push_member(out: &mut Vec<u8>, m: &RoomMember)
    ensures
        final(out)@ == old(out)@ + enc_member(*m),
{
    let k_user: [u8; 11] = ['{' as u8, '"' as u8, 'u' as u8, 's' as u8, 'e' as u8, 'r' as u8,
        '_' as u8, 'i' as u8, 'd' as u8, '"' as u8, ':' as u8];
    push_bytes(out, &k_user);
    assert(k_user@ =~= lit_user_id_key());
    push_str(out, &m.user_id);
    let k_name: [u8; 8] = [',' as u8, '"' as u8, 'n' as u8, 'a' as u8, 'm' as u8, 'e' as u8,
        '"' as u8, ':' as u8];
    push_bytes(out, &k_name);
    assert(k_name@ =~= lit_name_key());
    push_str(out, &m.name);
    let k_disp: [u8; 16] = [',' as u8, '"' as u8, 'd' as u8, 'i' as u8, 's' as u8, 'p' as u8,
        'l' as u8, 'a' as u8, 'y' as u8, '_' as u8, 'n' as u8, 'a' as u8, 'm' as u8, 'e' as u8,
        '"' as u8, ':' as u8];
    push_bytes(out, &k_disp);
    assert(k_disp@ =~= lit_display_name_key());
    push_opt_str(out, &m.display_name);
    let k_avatar: [u8; 10] = [',' as u8, '"' as u8, 'a' as u8, 'v' as u8, 'a' as u8, 't' as u8,
        'a' as u8, 'r' as u8, '"' as u8, ':' as u8];
    push_bytes(out, &k_avatar);
    assert(k_avatar@ =~= lit_avatar_key());
    push_str(out, &m.avatar);
    out.push('}' as u8);
    assert(final(out)@ =~= old(out)@ + enc_member(*m));
}

/// Appends one room object.
#[verifier::rlimit(60)]
fn push_room(out: &mut Vec<u8>, r: &RoomSnapshot)
    ensures
        final(out)@ == old(out)@ + enc_room(*r),
{
    let k_room: [u8; 11] = ['{' as u8, '"' as u8, 'r' as u8, 'o' as u8, 'o' as u8, 'm' as u8,
        '_' as u8, 'i' as u8, 'd' as u8, '"' as u8, ':' as u8];
    push_bytes(out, &k_room);
    assert(k_room@ =~= lit_room_id_key());
    push_str(out, &r.room_id);
    let k_name: [u8; 8] = [',' as u8, '"' as u8, 'n' as u8, 'a' as u8, 'm' as u8, 'e' as u8,
        '"' as u8, ':' as u8];
    push_bytes(out, &k_name);
    assert(k_name@ =~= lit_name_key());
    push_opt_str(out, &r.name);
    let k_avatar: [u8; 10] = [',' as u8, '"' as u8, 'a' as u8, 'v' as u8, 'a' as u8, 't' as u8,
        'a' as u8, 'r' as u8, '"' as u8, ':' as u8];
    push_bytes(out, &k_avatar);
    assert(k_avatar@ =~= lit_avatar_key());
    push_str(out, &r.avatar);
    let k_members: [u8; 12] = [',' as u8, '"' as u8, 'm' as u8, 'e' as u8, 'm' as u8, 'b' as u8,
        'e' as u8, 'r' as u8, 's' as u8, '"' as u8, ':' as u8, '[' as u8];
    push_bytes(out, &k_members);
    assert(k_members@ =~= lit_members_key());
    let ghost pre_members = out@;
    let mut i: usize = 0;
    while i < r.members.len()
        invariant
            i <= r.members.len(),
            out@ == pre_members + enc_members(r.members@.take(i as int)),
        decreases r.members.len() - i,
    {
        if i > 0 {
            out.push(',' as u8);
        }
        push_member(out, &r.members[i]);
        proof {
            assert(r.members@.take(i + 1).drop_last() =~= r.members@.take(i as int));
            assert(r.members@.take(i + 1).last() == r.members@[i as int]);
            assert(out@ =~= pre_members + enc_members(r.members@.take(i + 1)));
        }
        i = i + 1;
    }
    assert(r.members@.take(r.members@.len() as int) =~= r.members@);
    let k_events: [u8; 12] = [']' as u8, ',' as u8, '"' as u8, 'e' as u8, 'v' as u8, 'e' as u8,
        'n' as u8, 't' as u8, 's' as u8, '"' as u8, ':' as u8, '[' as u8];
    push_bytes(out, &k_events);
    assert(k_events@ =~= lit_events_key());
    let ghost pre_events = out@;
    let mut j: usize = 0;
    while j < r.events.len()
        invariant
            j <= r.events.len(),
            out@ == pre_events + enc_events(r.events@.take(j as int)),
        decreases r.events.len() - j,
    {
        if j > 0 {
            out.push(',' as u8);
        }
        push_bytes(out, r.events[j].as_slice());
        proof {
            assert(r.events@.take(j + 1).drop_last() =~= r.events@.take(j as int));
            assert(r.events@.take(j + 1).last() == r.events@[j as int]);
            assert(out@ =~= pre_events + enc_events(r.events@.take(j + 1)));
        }
        j = j + 1;
    }
    assert(r.events@.take(r.events@.len() as int) =~= r.events@);
    let k_unread: [u8; 17] = [']' as u8, ',' as u8, '"' as u8, 'u' as u8, 'n' as u8, 'r' as u8,
        'e' as u8, 'a' as u8, 'd' as u8, '_' as u8, 'c' as u8, 'o' as u8, 'u' as u8, 'n' as u8,
        't' as u8, '"' as u8, ':' as u8];
    push_bytes(out, &k_unread);
    assert(k_unread@ =~= lit_unread_key());
    push_dec(out, r.unread_count);
    let k_direct: [u8; 13] = [',' as u8, '"' as u8, 'i' as u8, 's' as u8, '_' as u8, 'd' as u8,
        'i' as u8, 'r' as u8, 'e' as u8, 'c' as u8, 't' as u8, '"' as u8, ':' as u8];
    push_bytes(out, &k_direct);
    assert(k_direct@ =~= lit_is_direct_key());
    push_bool(out, r.is_direct);
    out.push('}' as u8);
    assert(final(out)@ =~= old(out)@ + enc_room(*r));
}

/// The canonical, deterministically ordered serialization of a document.
pub fn encode(d: &StateDocument) -> (r: Vec<u8>)
    ensures
        r@ == spec_encode(*d),
{
    let mut out: Vec<u8> = Vec::new();
    out.push('[' as u8);
    let ghost pre = out@;
    let mut i: usize = 0;
    while i < d.rooms.len()
        invariant
            i <= d.rooms.len(),
            out@ == pre + enc_rooms(d.rooms@.take(i as int)),
        decreases d.rooms.len() - i,
    {
        if i > 0 {
            out.push(',' as u8);
        }
        push_room(&mut out, &d.rooms[i]);
        proof {
            assert(d.rooms@.take(i + 1).drop_last() =~= d.rooms@.take(i as int));
            assert(d.rooms@.take(i + 1).last() == d.rooms@[i as int]);
            assert(out@ =~= pre + enc_rooms(d.rooms@.take(i + 1)));
        }
        i = i + 1;
    }
    assert(d.rooms@.take(d.rooms@.len() as int) =~= d.rooms@);
    out.push(']' as u8);
    assert(out@ =~= spec_encode(*d));
    out
}

} // verus!
