//! Routing a decoded command to the messaging backend.
//!
//! Each command maps to exactly one backend operation; performing the
//! operation (sending, uploading, registering interest) is the backend's
//! business and runs as detached, fire-and-forget work outside this core.
use vstd::prelude::*;

use crate::codec::opt_view;
use crate::commands::Command;
use crate::commands::GCommand;

verus! {

/// The backend operation one command asks for.
#[derive(Debug, PartialEq, Eq)]
pub enum BackendAction {
    SendText { room_id: Vec<u8>, message: Vec<u8> },
    SendReply { room_id: Vec<u8>, event_id: Vec<u8>, message: Vec<u8> },
    SendAttachment { room_id: Vec<u8>, path: Vec<u8> },
    SubscribeRoom { room_id: Vec<u8> },
}

/// The mathematical shape of a backend operation.
pub ghost enum GAction {
    SendText { room_id: Seq<u8>, message: Seq<u8> },
    SendReply { room_id: Seq<u8>, event_id: Seq<u8>, message: Seq<u8> },
    SendAttachment { room_id: Seq<u8>, path: Seq<u8> },
    SubscribeRoom { room_id: Seq<u8> },
}

impl View for BackendAction {
    type V = GAction;

    open spec fn view(&self) -> GAction {
        match self {
            BackendAction::SendText { room_id, message } => GAction::SendText {
                room_id: room_id@,
                message: message@,
            },
            BackendAction::SendReply { room_id, event_id, message } => GAction::SendReply {
                room_id: room_id@,
                event_id: event_id@,
                message: message@,
            },
            BackendAction::SendAttachment { room_id, path } => GAction::SendAttachment {
                room_id: room_id@,
                path: path@,
            },
            BackendAction::SubscribeRoom { room_id } => GAction::SubscribeRoom {
                room_id: room_id@,
            },
        }
    }
}

/// Where each command variant goes: a send with a reply target becomes a
/// reply, a plain send a text message, an attach an upload, a subscribe a
/// room registration.
pub open spec fn spec_route(c: GCommand) -> GAction {
    match c {
        GCommand::Send { room_id, reply_to, message } => match reply_to {
            Some(event_id) => GAction::SendReply { room_id, event_id, message },
            None => GAction::SendText { room_id, message },
        },
        GCommand::Attach { room_id, path } => GAction::SendAttachment { room_id, path },
        GCommand::Subscribe { room_id } => GAction::SubscribeRoom { room_id },
    }
}

/// Routes one command to its backend operation.
pub fn route(c: Command) -> (a: BackendAction)
    ensures
        a@ == spec_route(c@),
{
    match c {
        Command::Send { room_id, reply_to, message } => match reply_to {
            Some(event_id) => BackendAction::SendReply { room_id, event_id, message },
            None => BackendAction::SendText { room_id, message },
        },
        Command::Attach { room_id, path } => BackendAction::SendAttachment { room_id, path },
        Command::Subscribe { room_id } => BackendAction::SubscribeRoom { room_id },
    }
}

} // verus!
