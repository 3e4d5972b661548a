//! Per-connection loop decisions.
//!
//! Each accepted connection runs two independent loops against shared
//! handles: a read loop that buffers bytes into lines and decodes each
//! complete line, and a write loop that polls its private subscriber and
//! emits a newline-framed snapshot exactly when the channel holds news.
//! Everything here is the decision each loop iteration takes; the transport
//! itself lives outside.
use vstd::prelude::*;

use crate::channel::LatestValueChannel;
use crate::channel::Subscriber;
use crate::channel::spec_poll;
use crate::commands::Command;
use crate::commands::GCommand;
use crate::commands::spec_decode;
use crate::lines::LineBuffer;
use crate::lines::spec_feed;

verus! {

/// What one transport read came back with.
#[derive(Debug, PartialEq, Eq, Structural)]
pub enum ReadOutcome {
    /// `n` bytes were read; zero means the peer closed.
    Bytes { n: usize },
    /// The readiness signal was a false positive; nothing was read.
    WouldBlock,
    /// A non-recoverable transport error.
    Failed,
}

/// What the read loop does next.
#[derive(Debug, PartialEq, Eq, Structural)]
pub enum LoopStep {
    /// Hand the bytes to the line buffer and decode the completed lines.
    Process,
    /// Try again; nothing happened.
    Retry,
    /// End this connection's loop; no other connection is affected.
    Close,
}

/// A zero-byte read or a transport failure closes only this loop; a spurious
/// wakeup is retried; data is processed.
pub open spec fn spec_read_step(ev: ReadOutcome) -> LoopStep {
    match ev {
        ReadOutcome::Bytes { n } => if n == 0 {
            LoopStep::Close
        } else {
            LoopStep::Process
        },
        ReadOutcome::WouldBlock => LoopStep::Retry,
        ReadOutcome::Failed => LoopStep::Close,
    }
}

/// Decides one read-loop iteration.
pub fn read_step(ev: &ReadOutcome) -> (s: LoopStep)
    ensures
        s == spec_read_step(*ev),
{
    match ev {
        ReadOutcome::Bytes { n } => if *n == 0 {
            LoopStep::Close
        } else {
            LoopStep::Process
        },
        ReadOutcome::WouldBlock => LoopStep::Retry,
        ReadOutcome::Failed => LoopStep::Close,
    }
}

/// The commands decoded from a batch of complete lines, in order; malformed
/// lines are dropped and decide nothing.
pub open spec fn spec_decoded(lines: Seq<Seq<u8>>) -> Seq<GCommand>
    decreases lines.len(),
{
    if lines.len() == 0 {
        Seq::empty()
    } else {
        spec_decoded(lines.drop_last()) + (match spec_decode(lines.last()) {
            Some(c) => seq![c],
            None => Seq::empty(),
        })
    }
}

/// Absorbs one read's bytes and decodes every line it completes: exactly the
/// well-formed lines become commands, in order; each malformed line is
/// discarded by itself and the connection carries on.
pub fn process_chunk(buf: &mut LineBuffer, data: &[u8]) -> (cmds: Vec<Command>)
    ensures
        ({
            let t = spec_feed(Seq::empty(), old(buf)@, data@);
            &&& cmds@.map_values(|c: Command| c@) == spec_decoded(t.0)
            &&& final(buf)@ == t.1
        }),
{
    let lines = buf.feed(data);
    let ghost glines = lines@.map_values(|l: Vec<u8>| l@);
    let mut cmds: Vec<Command> = Vec::new();
    let mut i: usize = 0;
    assert(cmds@.map_values(|c: Command| c@) =~= Seq::<GCommand>::empty());
    while i < lines.len()
        invariant
            i <= lines.len(),
            glines == lines@.map_values(|l: Vec<u8>| l@),
            cmds@.map_values(|c: Command| c@) == spec_decoded(glines.take(i as int)),
        decreases lines.len() - i,
    {
        let ghost pre = cmds@.map_values(|c: Command| c@);
        match crate::commands::decode(&lines[i]) {
            Ok(c) => {
                cmds.push(c);
                assert(cmds@.map_values(|c: Command| c@) =~= pre.push(
                    spec_decode(glines[i as int])->Some_0,
                ));
            },
            Err(_) => {},
        }
        proof {
            assert(glines.take(i + 1).drop_last() =~= glines.take(i as int));
            assert(glines.take(i + 1).last() == glines[i as int]);
        }
        i = i + 1;
    }
    assert(glines.take(glines.len() as int) =~= glines);
    cmds
}

/// What one write-loop iteration does.
#[derive(Debug, PartialEq, Eq)]
pub enum WriteAction {
    /// Write this newline-framed snapshot to the transport.
    Emit { line: Vec<u8> },
    /// Nothing new: sleep a short fixed interval and poll again.
    Backoff,
}

/// One write-loop iteration: a single atomic poll yields the value and the
/// changed flag together — no fresh publish can land between them — and the
/// snapshot is emitted with a trailing newline exactly when it is news.
pub fn write_step(ch: &LatestValueChannel, sub: &mut Subscriber) -> (a: WriteAction)
    ensures
        final(sub)@ == spec_poll(ch@, old(sub)@).subscriber,
        spec_poll(ch@, old(sub)@).changed ==> (a matches WriteAction::Emit { line } && line@
            == spec_poll(ch@, old(sub)@).value + seq![10u8]),
        !spec_poll(ch@, old(sub)@).changed ==> a == WriteAction::Backoff,
{
    let (value, changed) = ch.poll(sub);
    if changed {
        let mut line = value;
        line.push(10);
        assert(line@ =~= spec_poll(ch@, old(sub)@).value + seq![10u8]);
        WriteAction::Emit { line }
    } else {
        WriteAction::Backoff
    }
}

/// What service startup does about the well-known socket path.
#[derive(Debug, PartialEq, Eq, Structural)]
pub enum StartupAction {
    /// The path is free (or was removed): bind and serve.
    Bind,
    /// A stale path could not be removed: abort startup rather than bind
    /// over a possibly-live socket.
    Abort,
}

/// Startup binds only when the well-known path does not exist or was
/// removed.
pub open spec fn spec_startup(path_exists: bool, removal_succeeded: bool) -> StartupAction {
    if path_exists && !removal_succeeded {
        StartupAction::Abort
    } else {
        StartupAction::Bind
    }
}

/// Decides startup from whether the socket path exists and, if so, whether
/// removing it succeeded.
pub fn startup_action(path_exists: bool, removal_succeeded: bool) -> (a: StartupAction)
    ensures
        a == spec_startup(path_exists, removal_succeeded),
{
    if path_exists && !removal_succeeded {
        StartupAction::Abort
    } else {
        StartupAction::Bind
    }
}

} // verus!
