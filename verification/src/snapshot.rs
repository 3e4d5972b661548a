//! The outward-facing room state: snapshots and the documents that carry them.
//!
//! All text is carried as UTF-8 bytes; timeline events are opaque,
//! already-encoded records supplied upstream, most recent last.
use vstd::prelude::*;

verus! {

/// One active member of a room.
pub struct RoomMember {
    pub user_id: Vec<u8>,
    pub name: Vec<u8>,
    pub display_name: Option<Vec<u8>>,
    pub avatar: Vec<u8>,
}

/// The visible state of one room. `avatar` is the resolved thumbnail URL,
/// empty if none could be resolved; `events` holds only original
/// room-message records.
pub struct RoomSnapshot {
    pub room_id: Vec<u8>,
    pub name: Option<Vec<u8>>,
    pub avatar: Vec<u8>,
    pub members: Vec<RoomMember>,
    pub events: Vec<Vec<u8>>,
    pub unread_count: u64,
    pub is_direct: bool,
}

/// A full snapshot of the visible room state at one point in time, ordered by
/// recency as supplied upstream.
pub struct StateDocument {
    pub rooms: Vec<RoomSnapshot>,
}

/// Room identifiers are unique within a document.
pub open spec fn doc_wf(d: StateDocument) -> bool {
    forall|i: int, j: int|
        0 <= i < j < d.rooms@.len() ==> d.rooms@[i].room_id@ != d.rooms@[j].room_id@
}

} // verus!
