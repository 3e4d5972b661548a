//! Decoding one inbound line of structured text into a command.
//!
//! A line is a flat JSON object with string keys and string-or-null values:
//! a `type` field picks the command variant, the remaining fields fill it.
//! Unknown discriminants, unknown or repeated keys, and malformed payloads
//! all yield `DecodeError`; only that line is discarded, never the
//! connection.
use vstd::prelude::*;

use crate::bytes::bytes_eq;
use crate::codec::opt_view;

verus! {

/// One decoded command, immutable once decoded.
#[derive(Debug, PartialEq, Eq)]
pub enum Command {
    Send { room_id: Vec<u8>, reply_to: Option<Vec<u8>>, message: Vec<u8> },
    Attach { room_id: Vec<u8>, path: Vec<u8> },
    Subscribe { room_id: Vec<u8> },
}

/// The mathematical shape of a command.
pub ghost enum GCommand {
    Send { room_id: Seq<u8>, reply_to: Option<Seq<u8>>, message: Seq<u8> },
    Attach { room_id: Seq<u8>, path: Seq<u8> },
    Subscribe { room_id: Seq<u8> },
}

impl View for Command {
    type V = GCommand;

    open spec fn view(&self) -> GCommand {
        match self {
            Command::Send { room_id, reply_to, message } => GCommand::Send {
                room_id: room_id@,
                reply_to: opt_view(*reply_to),
                message: message@,
            },
            Command::Attach { room_id, path } => GCommand::Attach {
                room_id: room_id@,
                path: path@,
            },
            Command::Subscribe { room_id } => GCommand::Subscribe { room_id: room_id@ },
        }
    }
}

/// A malformed or unrecognized line.
#[derive(Debug, Clone, Copy, PartialEq, Eq, Structural)]
pub struct DecodeError;

/// JSON insignificant whitespace.
pub open spec fn is_ws(b: u8) -> bool {
    b == 32 || b == 9 || b == 10 || b == 13
}

/// The first index at or after `i` holding no whitespace.
pub open spec fn skip_ws(s: Seq<u8>, i: int) -> int
    decreases s.len() - i,
{
    if 0 <= i < s.len() && is_ws(s[i]) {
        skip_ws(s, i + 1)
    } else {
        i
    }
}

/// What a backslash escape stands for; `None` where none is recognized.
pub open spec fn unescape(b: u8) -> Option<u8> {
    if b == 34 {
        Some(34u8)
    } else if b == 92 {
        Some(92u8)
    } else if b == 47 {
        Some(47u8)
    } else if b == 110 {
        Some(10u8)
    } else if b == 116 {
        Some(9u8)
    } else if b == 114 {
        Some(13u8)
    } else if b == 98 {
        Some(8u8)
    } else if b == 102 {
        Some(12u8)
    } else {
        None
    }
}

/// Parses a string body starting just after the opening quote: the unescaped
/// content and the index just past the closing quote.
pub open spec fn parse_str_body(s: Seq<u8>, i: int) -> Option<(Seq<u8>, int)>
    decreases s.len() - i,
{
    if i < 0 || i >= s.len() {
        None
    } else if s[i] == 34 {
        Some((Seq::empty(), i + 1))
    } else if s[i] == 92 {
        if i + 1 >= s.len() {
            None
        } else {
            match unescape(s[i + 1]) {
                None => None,
                Some(b) => match parse_str_body(s, i + 2) {
                    None => None,
                    Some(t) => Some((seq![b] + t.0, t.1)),
                },
            }
        }
    } else if s[i] < 32 {
        None
    } else {
        match parse_str_body(s, i + 1) {
            None => None,
            Some(t) => Some((seq![s[i]] + t.0, t.1)),
        }
    }
}

/// Parses a quoted string starting at `i`.
pub open spec fn parse_string(s: Seq<u8>, i: int) -> Option<(Seq<u8>, int)> {
    if 0 <= i < s.len() && s[i] == 34 {
        parse_str_body(s, i + 1)
    } else {
        None
    }
}

/// A field value: a string or `null`.
pub ghost enum GVal {
    Str(Seq<u8>),
    Null,
}

/// Parses a value at `i`: a quoted string or the word `null`.
pub open spec fn parse_value(s: Seq<u8>, i: int) -> Option<(GVal, int)> {
    if 0 <= i < s.len() && s[i] == 34 {
        match parse_str_body(s, i + 1) {
            None => None,
            Some(t) => Some((GVal::Str(t.0), t.1)),
        }
    } else if 0 <= i && i + 4 <= s.len() && s[i] == 110 && s[i + 1] == 117 && s[i + 2] == 108 && s[
        i + 3
    ] == 108 {
        Some((GVal::Null, i + 4))
    } else {
        None
    }
}

pub open spec fn lit_k_type() -> Seq<u8> {
    seq!['t' as u8, 'y' as u8, 'p' as u8, 'e' as u8]
}

pub open spec fn lit_k_room_id() -> Seq<u8> {
    seq!['r' as u8, 'o' as u8, 'o' as u8, 'm' as u8, '_' as u8, 'i' as u8, 'd' as u8]
}

pub open spec fn lit_k_reply_to() -> Seq<u8> {
    seq!['r' as u8, 'e' as u8, 'p' as u8, 'l' as u8, 'y' as u8, '_' as u8, 't' as u8, 'o' as u8]
}

pub open spec fn lit_k_message() -> Seq<u8> {
    seq!['m' as u8, 'e' as u8, 's' as u8, 's' as u8, 'a' as u8, 'g' as u8, 'e' as u8]
}

pub open spec fn lit_k_path() -> Seq<u8> {
    seq!['p' as u8, 'a' as u8, 't' as u8, 'h' as u8]
}

pub open spec fn lit_v_send() -> Seq<u8> {
    seq!['s' as u8, 'e' as u8, 'n' as u8, 'd' as u8]
}

pub open spec fn lit_v_file() -> Seq<u8> {
    seq!['f' as u8, 'i' as u8, 'l' as u8, 'e' as u8]
}

pub open spec fn lit_v_attachment() -> Seq<u8> {
    seq!['a' as u8, 't' as u8, 't' as u8, 'a' as u8, 'c' as u8, 'h' as u8, 'm' as u8, 'e' as u8,
        'n' as u8, 't' as u8]
}

pub open spec fn lit_v_upload() -> Seq<u8> {
    seq!['u' as u8, 'p' as u8, 'l' as u8, 'o' as u8, 'a' as u8, 'd' as u8]
}

pub open spec fn lit_v_subscribe() -> Seq<u8> {
    seq!['s' as u8, 'u' as u8, 'b' as u8, 's' as u8, 'c' as u8, 'r' as u8, 'i' as u8, 'b' as u8,
        'e' as u8]
}

/// The fields a line may carry, each at most once.
pub ghost struct GFields {
    pub ty: Option<Seq<u8>>,
    pub room_id: Option<Seq<u8>>,
    pub reply_to: Option<Option<Seq<u8>>>,
    pub message: Option<Seq<u8>>,
    pub path: Option<Seq<u8>>,
}

pub open spec fn no_fields() -> GFields {
    GFields { ty: None, room_id: None, reply_to: None, message: None, path: None }
}

/// How many fields are still unset; each accepted member fills one.
pub open spec fn free_count(f: GFields) -> nat {
    (if f.ty is None {
        1nat
    } else {
        0nat
    }) + (if f.room_id is None {
        1nat
    } else {
        0nat
    }) + (if f.reply_to is None {
        1nat
    } else {
        0nat
    }) + (if f.message is None {
        1nat
    } else {
        0nat
    }) + (if f.path is None {
        1nat
    } else {
        0nat
    })
}

/// Records one `key: value` member. Unknown keys, repeated keys, and `null`
/// anywhere but `reply_to` are malformed.
pub open spec fn set_field(f: GFields, key: Seq<u8>, v: GVal) -> Option<GFields> {
    if key == lit_k_type() {
        match (f.ty, v) {
            (None, GVal::Str(s)) => Some(GFields { ty: Some(s), ..f }),
            _ => None,
        }
    } else if key == lit_k_room_id() {
        match (f.room_id, v) {
            (None, GVal::Str(s)) => Some(GFields { room_id: Some(s), ..f }),
            _ => None,
        }
    } else if key == lit_k_reply_to() {
        match f.reply_to {
            Some(_) => None,
            None => match v {
                GVal::Str(s) => Some(GFields { reply_to: Some(Some(s)), ..f }),
                GVal::Null => Some(GFields { reply_to: Some(None), ..f }),
            },
        }
    } else if key == lit_k_message() {
        match (f.message, v) {
            (None, GVal::Str(s)) => Some(GFields { message: Some(s), ..f }),
            _ => None,
        }
    } else if key == lit_k_path() {
        match (f.path, v) {
            (None, GVal::Str(s)) => Some(GFields { path: Some(s), ..f }),
            _ => None,
        }
    } else {
        None
    }
}

/// Parses the members of the object, starting just after `{` or a comma,
/// up to and including the closing `}`.
pub open spec fn parse_members(s: Seq<u8>, i: int, f: GFields) -> Option<(GFields, int)>
    decreases free_count(f),
{
    let i1 = skip_ws(s, i);
    match parse_string(s, i1) {
        None => None,
        Some(kt) => {
            let i3 = skip_ws(s, kt.1);
            if 0 <= i3 < s.len() && s[i3] == 58 {
                let i4 = skip_ws(s, i3 + 1);
                match parse_value(s, i4) {
                    None => None,
                    Some(vt) => match set_field(f, kt.0, vt.0) {
                        None => None,
                        Some(f2) => {
                            let i6 = skip_ws(s, vt.1);
                            if 0 <= i6 < s.len() && s[i6] == 44 {
                                parse_members(s, i6 + 1, f2)
                            } else if 0 <= i6 < s.len() && s[i6] == 125 {
                                Some((f2, i6 + 1))
                            } else {
                                None
                            }
                        },
                    },
                }
            } else {
                None
            }
        },
    }
}

/// Turns the collected fields into a command: the discriminant picks the
/// variant, its required fields must be present, and no foreign field may be.
pub open spec fn finalize(f: GFields) -> Option<GCommand> {
    match f.ty {
        None => None,
        Some(t) => if t == lit_v_send() {
            if f.path is Some {
                None
            } else {
                match (f.room_id, f.message) {
                    (Some(r), Some(m)) => Some(
                        GCommand::Send {
                            room_id: r,
                            reply_to: match f.reply_to {
                                None => None,
                                Some(x) => x,
                            },
                            message: m,
                        },
                    ),
                    _ => None,
                }
            }
        } else if t == lit_v_file() || t == lit_v_attachment() || t == lit_v_upload() {
            if f.reply_to is Some || f.message is Some {
                None
            } else {
                match (f.room_id, f.path) {
                    (Some(r), Some(p)) => Some(GCommand::Attach { room_id: r, path: p }),
                    _ => None,
                }
            }
        } else if t == lit_v_subscribe() {
            if f.reply_to is Some || f.message is Some || f.path is Some {
                None
            } else {
                match f.room_id {
                    Some(r) => Some(GCommand::Subscribe { room_id: r }),
                    None => None,
                }
            }
        } else {
            None
        },
    }
}

/// What one line decodes to: `Some` exactly when the line is a well-formed
/// object whose fields make one command, with nothing but whitespace after.
pub open spec fn spec_decode(line: Seq<u8>) -> Option<GCommand> {
    let i0 = skip_ws(line, 0);
    if 0 <= i0 < line.len() && line[i0] == 123 {
        match parse_members(line, i0 + 1, no_fields()) {
            None => None,
            Some(ft) => {
                let j = skip_ws(line, ft.1);
                if j == line.len() {
                    finalize(ft.0)
                } else {
                    None
                }
            },
        }
    } else {
        None
    }
}

fn is_ws_b(b: u8) -> (r: bool)
    ensures
        r == is_ws(b),
{
    b == 32 || b == 9 || b == 10 || b == 13
}

fn skip_ws_x(s: &Vec<u8>, i: usize) -> (r: usize)
    requires
        i <= s.len(),
    ensures
        r == skip_ws(s@, i as int),
        i <= r <= s.len(),
    decreases s.len() - i,
{
    if i < s.len() && is_ws_b(s[i]) {
        skip_ws_x(s, i + 1)
    } else {
        i
    }
}

fn unescape_x(b: u8) -> (r: Option<u8>)
    ensures
        r == unescape(b),
{
    if b == 34 {
        Some(34)
    } else if b == 92 {
        Some(92)
    } else if b == 47 {
        Some(47)
    } else if b == 110 {
        Some(10)
    } else if b == 116 {
        Some(9)
    } else if b == 114 {
        Some(13)
    } else if b == 98 {
        Some(8)
    } else if b == 102 {
        Some(12)
    } else {
        None
    }
}

fn parse_str_body_x(s: &Vec<u8>, i: usize) -> (r: Option<(Vec<u8>, usize)>)
    requires
        i <= s.len(),
    ensures
        r is Some <==> parse_str_body(s@, i as int) is Some,
        r is Some ==> {
            let t = parse_str_body(s@, i as int)->Some_0;
            &&& r->Some_0.0@ == t.0
            &&& r->Some_0.1 as int == t.1
            &&& i < r->Some_0.1 <= s.len()
        },
    decreases s.len() - i,
{
    if i >= s.len() {
        None
    } else {
        let b = s[i];
        if b == 34 {
            Some((Vec::new(), i + 1))
        } else if b == 92 {
            if i + 1 >= s.len() {
                None
            } else {
                match unescape_x(s[i + 1]) {
                    None => None,
                    Some(c) => match parse_str_body_x(s, i + 2) {
                        None => None,
                        Some((rest, j)) => {
                            let mut v = rest;
                            v.insert(0, c);
                            assert(v@ =~= seq![c] + parse_str_body(s@, i + 2)->Some_0.0);
                            Some((v, j))
                        },
                    },
                }
            }
        } else if b < 32 {
            None
        } else {
            match parse_str_body_x(s, i + 1) {
                None => None,
                Some((rest, j)) => {
                    let mut v = rest;
                    v.insert(0, b);
                    assert(v@ =~= seq![b] + parse_str_body(s@, i + 1)->Some_0.0);
                    Some((v, j))
                },
            }
        }
    }
}

fn parse_string_x(s: &Vec<u8>, i: usize) -> (r: Option<(Vec<u8>, usize)>)
    requires
        i <= s.len(),
    ensures
        r is Some <==> parse_string(s@, i as int) is Some,
        r is Some ==> {
            let t = parse_string(s@, i as int)->Some_0;
            &&& r->Some_0.0@ == t.0
            &&& r->Some_0.1 as int == t.1
            &&& i < r->Some_0.1 <= s.len()
        },
{
    if i < s.len() && s[i] == 34 {
        parse_str_body_x(s, i + 1)
    } else {
        None
    }
}

/// A parsed field value.
enum JVal {
    Str(Vec<u8>),
    Null,
}

impl View for JVal {
    type V = GVal;

    closed spec fn view(&self) -> GVal {
        match self {
            JVal::Str(v) => GVal::Str(v@),
            JVal::Null => GVal::Null,
        }
    }
}

fn parse_value_x(s: &Vec<u8>, i: usize) -> (r: Option<(JVal, usize)>)
    requires
        i <= s.len(),
    ensures
        r is Some <==> parse_value(s@, i as int) is Some,
        r is Some ==> {
            let t = parse_value(s@, i as int)->Some_0;
            &&& r->Some_0.0@ == t.0
            &&& r->Some_0.1 as int == t.1
            &&& i < r->Some_0.1 <= s.len()
        },
{
    if i < s.len() && s[i] == 34 {
        match parse_str_body_x(s, i + 1) {
            None => None,
            Some((v, j)) => Some((JVal::Str(v), j)),
        }
    } else if i < s.len() && s.len() - i >= 4 && s[i] == 110 && s[i + 1] == 117 && s[i + 2] == 108
        && s[i + 3] == 108 {
        Some((JVal::Null, i + 4))
    } else {
        None
    }
}

/// The fields collected so far while reading one line.
struct Fields {
    ty: Option<Vec<u8>>,
    room_id: Option<Vec<u8>>,
    reply_to: Option<Option<Vec<u8>>>,
    message: Option<Vec<u8>>,
    path: Option<Vec<u8>>,
}

impl View for Fields {
    type V = GFields;

    closed spec fn view(&self) -> GFields {
        GFields {
            ty: opt_view(self.ty),
            room_id: opt_view(self.room_id),
            reply_to: match self.reply_to {
                None => None,
                Some(x) => Some(opt_view(x)),
            },
            message: opt_view(self.message),
            path: opt_view(self.path),
        }
    }
}

fn set_field_x(f: Fields, key: Vec<u8>, v: JVal) -> (r: Option<Fields>)
    ensures
        r is Some <==> set_field(f@, key@, v@) is Some,
        r is Some ==> r->Some_0@ == set_field(f@, key@, v@)->Some_0,
{
    let k_type: [u8; 4] = ['t' as u8, 'y' as u8, 'p' as u8, 'e' as u8];
    let k_room: [u8; 7] = ['r' as u8, 'o' as u8, 'o' as u8, 'm' as u8, '_' as u8, 'i' as u8,
        'd' as u8];
    let k_reply: [u8; 8] = ['r' as u8, 'e' as u8, 'p' as u8, 'l' as u8, 'y' as u8, '_' as u8,
        't' as u8, 'o' as u8];
    let k_message: [u8; 7] = ['m' as u8, 'e' as u8, 's' as u8, 's' as u8, 'a' as u8, 'g' as u8,
        'e' as u8];
    let k_path: [u8; 4] = ['p' as u8, 'a' as u8, 't' as u8, 'h' as u8];
    assert(k_type@ =~= lit_k_type());
    assert(k_room@ =~= lit_k_room_id());
    assert(k_reply@ =~= lit_k_reply_to());
    assert(k_message@ =~= lit_k_message());
    assert(k_path@ =~= lit_k_path());
    if bytes_eq(&key, &k_type) {
        match (f.ty, v) {
            (None, JVal::Str(s)) => Some(
                Fields {
                    ty: Some(s),
                    room_id: f.room_id,
                    reply_to: f.reply_to,
                    message: f.message,
                    path: f.path,
                },
            ),
            _ => None,
        }
    } else if bytes_eq(&key, &k_room) {
        match (f.room_id, v) {
            (None, JVal::Str(s)) => Some(
                Fields {
                    ty: f.ty,
                    room_id: Some(s),
                    reply_to: f.reply_to,
                    message: f.message,
                    path: f.path,
                },
            ),
            _ => None,
        }
    } else if bytes_eq(&key, &k_reply) {
        match f.reply_to {
            Some(_) => None,
            None => match v {
                JVal::Str(s) => Some(
                    Fields {
                        ty: f.ty,
                        room_id: f.room_id,
                        reply_to: Some(Some(s)),
                        message: f.message,
                        path: f.path,
                    },
                ),
                JVal::Null => Some(
                    Fields {
                        ty: f.ty,
                        room_id: f.room_id,
                        reply_to: Some(None),
                        message: f.message,
                        path: f.path,
                    },
                ),
            },
        }
    } else if bytes_eq(&key, &k_message) {
        match (f.message, v) {
            (None, JVal::Str(s)) => Some(
                Fields {
                    ty: f.ty,
                    room_id: f.room_id,
                    reply_to: f.reply_to,
                    message: Some(s),
                    path: f.path,
                },
            ),
            _ => None,
        }
    } else if bytes_eq(&key, &k_path) {
        match (f.path, v) {
            (None, JVal::Str(s)) => Some(
                Fields {
                    ty: f.ty,
                    room_id: f.room_id,
                    reply_to: f.reply_to,
                    message: f.message,
                    path: Some(s),
                },
            ),
            _ => None,
        }
    } else {
        None
    }
}

fn parse_members_x(s: &Vec<u8>, i: usize, f: Fields) -> (r: Option<(Fields, usize)>)
    requires
        i <= s.len(),
    ensures
        r is Some <==> parse_members(s@, i as int, f@) is Some,
        r is Some ==> {
            let t = parse_members(s@, i as int, f@)->Some_0;
            &&& r->Some_0.0@ == t.0
            &&& r->Some_0.1 as int == t.1
            &&& r->Some_0.1 <= s.len()
        },
    decreases free_count(f@),
{
    let i1 = skip_ws_x(s, i);
    match parse_string_x(s, i1) {
        None => None,
        Some((key, i2)) => {
            let i3 = skip_ws_x(s, i2);
            if i3 < s.len() && s[i3] == 58 {
                let i4 = skip_ws_x(s, i3 + 1);
                match parse_value_x(s, i4) {
                    None => None,
                    Some((v, i5)) => match set_field_x(f, key, v) {
                        None => None,
                        Some(f2) => {
                            let i6 = skip_ws_x(s, i5);
                            if i6 < s.len() && s[i6] == 44 {
                                parse_members_x(s, i6 + 1, f2)
                            } else if i6 < s.len() && s[i6] == 125 {
                                Some((f2, i6 + 1))
                            } else {
                                None
                            }
                        },
                    },
                }
            } else {
                None
            }
        },
    }
}

fn finalize_x(f: Fields) -> (r: Result<Command, DecodeError>)
    ensures
        r is Ok <==> finalize(f@) is Some,
        r is Ok ==> r->Ok_0@ == finalize(f@)->Some_0,
{
    let v_send: [u8; 4] = ['s' as u8, 'e' as u8, 'n' as u8, 'd' as u8];
    let v_file: [u8; 4] = ['f' as u8, 'i' as u8, 'l' as u8, 'e' as u8];
    let v_attachment: [u8; 10] = ['a' as u8, 't' as u8, 't' as u8, 'a' as u8, 'c' as u8, 'h' as u8,
        'm' as u8, 'e' as u8, 'n' as u8, 't' as u8];
    let v_upload: [u8; 6] = ['u' as u8, 'p' as u8, 'l' as u8, 'o' as u8, 'a' as u8, 'd' as u8];
    let v_subscribe: [u8; 9] = ['s' as u8, 'u' as u8, 'b' as u8, 's' as u8, 'c' as u8, 'r' as u8,
        'i' as u8, 'b' as u8, 'e' as u8];
    assert(v_send@ =~= lit_v_send());
    assert(v_file@ =~= lit_v_file());
    assert(v_attachment@ =~= lit_v_attachment());
    assert(v_upload@ =~= lit_v_upload());
    assert(v_subscribe@ =~= lit_v_subscribe());
    let Fields { ty, room_id, reply_to, message, path } = f;
    match ty {
        None => Err(DecodeError),
        Some(t) => {
            if bytes_eq(&t, &v_send) {
                if path.is_some() {
                    Err(DecodeError)
                } else {
                    match (room_id, message) {
                        (Some(r), Some(m)) => Ok(
                            Command::Send {
                                room_id: r,
                                reply_to: match reply_to {
                                    None => None,
                                    Some(x) => x,
                                },
                                message: m,
                            },
                        ),
                        _ => Err(DecodeError),
                    }
                }
            } else if bytes_eq(&t, &v_file) || bytes_eq(&t, &v_attachment) || bytes_eq(
                &t,
                &v_upload,
            ) {
                if reply_to.is_some() || message.is_some() {
                    Err(DecodeError)
                } else {
                    match (room_id, path) {
                        (Some(r), Some(p)) => Ok(Command::Attach { room_id: r, path: p }),
                        _ => Err(DecodeError),
                    }
                }
            } else if bytes_eq(&t, &v_subscribe) {
                if reply_to.is_some() || message.is_some() || path.is_some() {
                    Err(DecodeError)
                } else {
                    match room_id {
                        Some(r) => Ok(Command::Subscribe { room_id: r }),
                        None => Err(DecodeError),
                    }
                }
            } else {
                Err(DecodeError)
            }
        },
    }
}

/// Decodes one line into a command. `Ok` exactly on the lines
/// `spec_decode` accepts, and then yields exactly that command.
pub fn decode(line: &Vec<u8>) -> (r: Result<Command, DecodeError>)
    ensures
        r is Ok <==> spec_decode(line@) is Some,
        r is Ok ==> r->Ok_0@ == spec_decode(line@)->Some_0,
{
    let i0 = skip_ws_x(line, 0);
    if i0 < line.len() && line[i0] == 123 {
        let f0 = Fields { ty: None, room_id: None, reply_to: None, message: None, path: None };
        assert(f0@ == no_fields());
        match parse_members_x(line, i0 + 1, f0) {
            None => Err(DecodeError),
            Some((f, i)) => {
                let j = skip_ws_x(line, i);
                if j == line.len() {
                    finalize_x(f)
                } else {
                    Err(DecodeError)
                }
            },
        }
    } else {
        Err(DecodeError)
    }
}

} // verus!
