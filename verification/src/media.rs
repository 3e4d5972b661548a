//! Content-addressed media cache planning and media URL construction.
//!
//! A media reference (`mxc://server/media-id`) is parsed into its parts; the
//! media id is the content id. The cache decision is pure: the deterministic
//! on-disk path either already holds the decrypted bytes (hit, no network
//! work) or a download from the deterministic URL is called for. Downloading,
//! decrypting and writing the file are the backend's and filesystem's
//! business outside this core.
use vstd::prelude::*;

use crate::bytes::push_bytes;
use crate::bytes::sub_bytes;

verus! {

/// A parsed encrypted-media reference: the homeserver-relative parts of an
/// `mxc://` URI. The media id doubles as the content id.
#[derive(Debug, PartialEq, Eq)]
pub struct MediaRef {
    pub server: Vec<u8>,
    pub media_id: Vec<u8>,
}

/// The first index at or after `i` holding `b`, or the length if none does.
pub open spec fn find_byte(s: Seq<u8>, b: u8, i: int) -> int
    decreases s.len() - i,
{
    if 0 <= i < s.len() {
        if s[i] == b {
            i
        } else {
            find_byte(s, b, i + 1)
        }
    } else {
        s.len() as int
    }
}

pub open spec fn lit_mxc_prefix() -> Seq<u8> {
    seq!['m' as u8, 'x' as u8, 'c' as u8, ':' as u8, '/' as u8, '/' as u8]
}

/// Parses `mxc://<server>/<media-id>`: both parts non-empty, the media id
/// free of further slashes. `None` for anything else.
pub open spec fn spec_parse_mxc(s: Seq<u8>) -> Option<(Seq<u8>, Seq<u8>)> {
    if s.len() < 6 || s.take(6) != lit_mxc_prefix() {
        None
    } else {
        let k = find_byte(s, 47, 6);
        if k == s.len() || k == 6 || k + 1 == s.len() || find_byte(s, 47, k + 1) != s.len() {
            None
        } else {
            Some((s.subrange(6, k), s.subrange(k + 1, s.len() as int)))
        }
    }
}

pub open spec fn lit_thumbnail_mid() -> Seq<u8> {
    seq!['_' as u8, 'm' as u8, 'a' as u8, 't' as u8, 'r' as u8, 'i' as u8, 'x' as u8, '/' as u8,
        'm' as u8, 'e' as u8, 'd' as u8, 'i' as u8, 'a' as u8, '/' as u8, 'v' as u8, '3' as u8,
        '/' as u8, 't' as u8, 'h' as u8, 'u' as u8, 'm' as u8, 'b' as u8, 'n' as u8, 'a' as u8,
        'i' as u8, 'l' as u8, '/' as u8]
}

pub open spec fn lit_download_mid() -> Seq<u8> {
    seq!['_' as u8, 'm' as u8, 'a' as u8, 't' as u8, 'r' as u8, 'i' as u8, 'x' as u8, '/' as u8,
        'm' as u8, 'e' as u8, 'd' as u8, 'i' as u8, 'a' as u8, '/' as u8, 'v' as u8, '3' as u8,
        '/' as u8, 'd' as u8, 'o' as u8, 'w' as u8, 'n' as u8, 'l' as u8, 'o' as u8, 'a' as u8,
        'd' as u8, '/' as u8]
}

pub open spec fn lit_scale_query() -> Seq<u8> {
    seq!['?' as u8, 'w' as u8, 'i' as u8, 'd' as u8, 't' as u8, 'h' as u8, '=' as u8, '5' as u8,
        '0' as u8, '&' as u8, 'h' as u8, 'e' as u8, 'i' as u8, 'g' as u8, 'h' as u8, 't' as u8,
        '=' as u8, '5' as u8, '0' as u8, '&' as u8, 'm' as u8, 'e' as u8, 't' as u8, 'h' as u8,
        'o' as u8, 'd' as u8, '=' as u8, 's' as u8, 'c' as u8, 'a' as u8, 'l' as u8, 'e' as u8]
}

pub open spec fn lit_tmp_dir() -> Seq<u8> {
    seq!['/' as u8, 't' as u8, 'm' as u8, 'p' as u8, '/' as u8]
}

/// The thumbnail URL for a parsed reference.
pub open spec fn spec_thumbnail_url(hs: Seq<u8>, server: Seq<u8>, id: Seq<u8>) -> Seq<u8> {
    hs + lit_thumbnail_mid() + server + seq![47u8] + id + lit_scale_query()
}

/// The download URL for a parsed reference.
pub open spec fn spec_download_url(hs: Seq<u8>, server: Seq<u8>, id: Seq<u8>) -> Seq<u8> {
    hs + lit_download_mid() + server + seq![47u8] + id + lit_scale_query()
}

/// The deterministic on-disk cache path for a content id.
pub open spec fn spec_cache_path(id: Seq<u8>) -> Seq<u8> {
    lit_tmp_dir() + id
}

/// The avatar field of a snapshot: the thumbnail URL of the reference, or the
/// empty-string sentinel where none is given or none resolves.
pub open spec fn spec_avatar_field(hs: Seq<u8>, mxc: Option<Seq<u8>>) -> Seq<u8> {
    match mxc {
        None => Seq::empty(),
        Some(u) => match spec_parse_mxc(u) {
            None => Seq::empty(),
            Some(p) => spec_thumbnail_url(hs, p.0, p.1),
        },
    }
}

fn find_byte_x(s: &Vec<u8>, b: u8, i: usize) -> (r: usize)
    requires
        i <= s.len(),
    ensures
        r == find_byte(s@, b, i as int),
        i <= r <= s.len(),
    decreases s.len() - i,
{
    if i < s.len() {
        if s[i] == b {
            i
        } else {
            find_byte_x(s, b, i + 1)
        }
    } else {
        s.len()
    }
}

/// Parses an `mxc://` reference into its server and media-id parts.
pub fn parse_mxc(uri: &Vec<u8>) -> (r: Option<MediaRef>)
    ensures
        r is Some <==> spec_parse_mxc(uri@) is Some,
        r is Some ==> {
            let p = spec_parse_mxc(uri@)->Some_0;
            &&& r->Some_0.server@ == p.0
            &&& r->Some_0.media_id@ == p.1
        },
{
    let prefix: [u8; 6] = ['m' as u8, 'x' as u8, 'c' as u8, ':' as u8, '/' as u8, '/' as u8];
    assert(prefix@ =~= lit_mxc_prefix());
    if uri.len() < 6 {
        return None;
    }
    let mut j: usize = 0;
    while j < 6
        invariant
            j <= 6,
            uri@.len() >= 6,
            forall|t: int| 0 <= t < j ==> uri@[t] == prefix@[t],
        decreases 6 - j,
    {
        if uri[j] != prefix[j] {
            assert(uri@.take(6)[j as int] != prefix@[j as int]);
            return None;
        }
        j = j + 1;
    }
    assert(uri@.take(6) =~= prefix@);
    let k = find_byte_x(uri, 47, 6);
    if k == uri.len() || k == 6 || k + 1 == uri.len() {
        return None;
    }
    if find_byte_x(uri, 47, k + 1) != uri.len() {
        return None;
    }
    let server = sub_bytes(uri, 6, k);
    let media_id = sub_bytes(uri, k + 1, uri.len());
    Some(MediaRef { server, media_id })
}

/// The resolved avatar field: a thumbnail URL, or empty where the reference
/// is absent or invalid.
pub fn thumbnail(homeserver: &Vec<u8>, mxc: &Option<Vec<u8>>) -> (r: Vec<u8>)
    ensures
        r@ == spec_avatar_field(homeserver@, crate::codec::opt_view(*mxc)),
{
    match mxc {
        None => Vec::new(),
        Some(u) => match parse_mxc(u) {
            None => Vec::new(),
            Some(m) => {
                let mut out: Vec<u8> = Vec::new();
                push_bytes(&mut out, homeserver.as_slice());
                let mid: [u8; 27] = ['_' as u8, 'm' as u8, 'a' as u8, 't' as u8, 'r' as u8,
                    'i' as u8, 'x' as u8, '/' as u8, 'm' as u8, 'e' as u8, 'd' as u8, 'i' as u8,
                    'a' as u8, '/' as u8, 'v' as u8, '3' as u8, '/' as u8, 't' as u8, 'h' as u8,
                    'u' as u8, 'm' as u8, 'b' as u8, 'n' as u8, 'a' as u8, 'i' as u8, 'l' as u8,
                    '/' as u8];
                push_bytes(&mut out, &mid);
                assert(mid@ =~= lit_thumbnail_mid());
                push_bytes(&mut out, m.server.as_slice());
                out.push(47);
                push_bytes(&mut out, m.media_id.as_slice());
                let q: [u8; 32] = ['?' as u8, 'w' as u8, 'i' as u8, 'd' as u8, 't' as u8,
                    'h' as u8, '=' as u8, '5' as u8, '0' as u8, '&' as u8, 'h' as u8, 'e' as u8,
                    'i' as u8, 'g' as u8, 'h' as u8, 't' as u8, '=' as u8, '5' as u8, '0' as u8,
                    '&' as u8, 'm' as u8, 'e' as u8, 't' as u8, 'h' as u8, 'o' as u8, 'd' as u8,
                    '=' as u8, 's' as u8, 'c' as u8, 'a' as u8, 'l' as u8, 'e' as u8];
                push_bytes(&mut out, &q);
                assert(q@ =~= lit_scale_query());
                assert(out@ =~= spec_avatar_field(
                    homeserver@,
                    crate::codec::opt_view(*mxc),
                ));
                out
            },
        },
    }
}

/// The deterministic cache path for a content id.
pub fn cache_path(media_id: &Vec<u8>) -> (r: Vec<u8>)
    ensures
        r@ == spec_cache_path(media_id@),
{
    let mut out: Vec<u8> = Vec::new();
    let d: [u8; 5] = ['/' as u8, 't' as u8, 'm' as u8, 'p' as u8, '/' as u8];
    push_bytes(&mut out, &d);
    assert(d@ =~= lit_tmp_dir());
    push_bytes(&mut out, media_id.as_slice());
    assert(out@ =~= spec_cache_path(media_id@));
    out
}

/// The download URL for a reference.
pub fn download_url(homeserver: &Vec<u8>, r: &MediaRef) -> (u: Vec<u8>)
    ensures
        u@ == spec_download_url(homeserver@, r.server@, r.media_id@),
{
    let mut out: Vec<u8> = Vec::new();
    push_bytes(&mut out, homeserver.as_slice());
    let mid: [u8; 26] = ['_' as u8, 'm' as u8, 'a' as u8, 't' as u8, 'r' as u8, 'i' as u8,
        'x' as u8, '/' as u8, 'm' as u8, 'e' as u8, 'd' as u8, 'i' as u8, 'a' as u8, '/' as u8,
        'v' as u8, '3' as u8, '/' as u8, 'd' as u8, 'o' as u8, 'w' as u8, 'n' as u8, 'l' as u8,
        'o' as u8, 'a' as u8, 'd' as u8, '/' as u8];
    push_bytes(&mut out, &mid);
    assert(mid@ =~= lit_download_mid());
    push_bytes(&mut out, r.server.as_slice());
    out.push(47);
    push_bytes(&mut out, r.media_id.as_slice());
    let q: [u8; 32] = ['?' as u8, 'w' as u8, 'i' as u8, 'd' as u8, 't' as u8, 'h' as u8, '=' as u8,
        '5' as u8, '0' as u8, '&' as u8, 'h' as u8, 'e' as u8, 'i' as u8, 'g' as u8, 'h' as u8,
        't' as u8, '=' as u8, '5' as u8, '0' as u8, '&' as u8, 'm' as u8, 'e' as u8, 't' as u8,
        'h' as u8, 'o' as u8, 'd' as u8, '=' as u8, 's' as u8, 'c' as u8, 'a' as u8, 'l' as u8,
        'e' as u8];
    push_bytes(&mut out, &q);
    assert(q@ =~= lit_scale_query());
    assert(out@ =~= spec_download_url(homeserver@, r.server@, r.media_id@));
    out
}

/// What one `ensure_cached` call decides, given whether the deterministic
/// path already holds the bytes.
#[derive(Debug, PartialEq, Eq)]
pub enum CacheDecision {
    /// The file is already there: return its path, touch nothing else.
    Hit { path: Vec<u8> },
    /// Fetch the ciphertext from `url`, decrypt, and store at `path`.
    Fetch { url: Vec<u8>, path: Vec<u8> },
}

/// The mathematical shape of a cache decision.
pub ghost enum GCacheDecision {
    Hit { path: Seq<u8> },
    Fetch { url: Seq<u8>, path: Seq<u8> },
}

impl View for CacheDecision {
    type V = GCacheDecision;

    open spec fn view(&self) -> GCacheDecision {
        match self {
            CacheDecision::Hit { path } => GCacheDecision::Hit { path: path@ },
            CacheDecision::Fetch { url, path } => GCacheDecision::Fetch {
                url: url@,
                path: path@,
            },
        }
    }
}

/// The decision is a pure function of the reference and of whether the
/// deterministic path is present: a hit where it is, a fetch where not.
pub open spec fn spec_plan(hs: Seq<u8>, server: Seq<u8>, id: Seq<u8>, present: bool)
    -> GCacheDecision {
    if present {
        GCacheDecision::Hit { path: spec_cache_path(id) }
    } else {
        GCacheDecision::Fetch {
            url: spec_download_url(hs, server, id),
            path: spec_cache_path(id),
        }
    }
}

/// Plans one `ensure_cached` call. `present` says whether the deterministic
/// cache path for this content id already holds a file.
pub fn ensure_cached_plan(homeserver: &Vec<u8>, r: &MediaRef, present: bool) -> (d: CacheDecision)
    ensures
        d@ == spec_plan(homeserver@, r.server@, r.media_id@, present),
{
    let path = cache_path(&r.media_id);
    if present {
        CacheDecision::Hit { path }
    } else {
        CacheDecision::Fetch { url: download_url(homeserver, r), path }
    }
}

/// Cache hit avoids network and decrypt work: where the content id is absent
/// from the store, the first call plans a fetch that stores its bytes at the
/// deterministic path; a second call for the same content id then finds the
/// path present, is decided as a hit — planning no download and no
/// decryption — at that very path, and the store still holds exactly the
/// bytes the first call wrote: the entry is created once and never updated.
pub proof fn lemma_cache_hit_avoids_network(
    hs: Seq<u8>,
    server: Seq<u8>,
    id: Seq<u8>,
    store: Map<Seq<u8>, Seq<u8>>,
    bytes: Seq<u8>,
)
    requires
        !store.contains_key(spec_cache_path(id)),
    ensures
        (spec_plan(hs, server, id, store.contains_key(spec_cache_path(id)))
            == GCacheDecision::Fetch {
            url: spec_download_url(hs, server, id),
            path: spec_cache_path(id),
        }),
        ({
            let after_first = store.insert(spec_cache_path(id), bytes);
            &&& spec_plan(hs, server, id, after_first.contains_key(spec_cache_path(id)))
                == GCacheDecision::Hit { path: spec_cache_path(id) }
            &&& after_first[spec_cache_path(id)] == bytes
        }),
{
}

} // verus!
