//! The TCP relay as far as it is decisions: when a direction is closed, when
//! the chunk of the client is transformed, and when a flow counts as stalled.

use vstd::prelude::*;

verus! {

/// When a flow counts as stalled: it has been silent for longer than
/// `idle_ms`, and has taken more than `low` and less than `high` bytes from
/// upstream.
#[derive(Debug, Clone, Copy, PartialEq, Eq, Structural)]
pub struct StallWindow {
    pub idle_ms: u64,
    pub low: u64,
    pub high: u64,
}

impl Default for StallWindow {
    /// Three seconds of silence between one and thirty-three kibibytes.
    fn default() -> (r: Self)
        ensures
            r == (StallWindow { idle_ms: 3000, low: 1024, high: 33792 }),
    {
        StallWindow { idle_ms: 3000, low: 1024, high: 33 * 1024 }
    }
}

/// The state of one relay.
#[derive(Debug, Clone, Copy, PartialEq, Eq, Structural)]
pub struct PipeState {
    /// The client has not closed its sending side.
    pub socket_open: bool,
    /// Upstream has not closed its sending side.
    pub stream_open: bool,
    /// The bytes taken from upstream so far.
    pub transferred: u64,
    /// When upstream last sent something, in milliseconds.
    pub last_transmission: u64,
}

/// What a read on one of the two sockets came to.
#[derive(Debug, Clone, Copy, PartialEq, Eq, Structural)]
pub enum PipeEvent {
    /// The client closed its sending side.
    ClientEof,
    /// The client sent a chunk.
    ClientData,
    /// Upstream closed its sending side.
    UpstreamEof,
    /// Upstream sent a chunk of this many bytes.
    UpstreamData(u64),
    /// The read would block.
    WouldBlock,
    /// The read failed.
    Failed,
}

/// What the relay is to do next.
#[derive(Debug, Clone, Copy, PartialEq, Eq, Structural)]
pub enum PipeAction {
    /// Wait for one of the open directions to become readable.
    Wait,
    /// Both directions are done with: the relay ends.
    Finish,
    /// Mark the upstream peer, shut both directions down, and end with an error.
    Stalled,
    /// Shut down the sending side towards upstream.
    ShutdownUpstream,
    /// Shut down the sending side towards the client.
    ShutdownClient,
    /// Transform the chunk and write it to upstream.
    TransformAndWrite,
    /// Write the chunk to the client as it is.
    WriteClient,
    /// Go on with the loop.
    Continue,
    /// Tear both directions down and end with the error.
    Abort,
}

/// The flow shows the stall signature at `now`.
pub open spec fn is_stalled(state: PipeState, window: StallWindow, now: u64) -> bool {
    &&& now > state.last_transmission
    &&& now - state.last_transmission > window.idle_ms
    &&& window.low < state.transferred
    &&& state.transferred < window.high
}

/// What is done at the top of the loop.
pub open spec fn polled(state: PipeState, window: StallWindow, now: u64) -> PipeAction {
    if !state.socket_open || !state.stream_open {
        PipeAction::Finish
    } else if is_stalled(state, window, now) {
        PipeAction::Stalled
    } else {
        PipeAction::Wait
    }
}

/// The count of bytes after `more` were added; it stops at the largest number.
pub open spec fn counted(transferred: u64, more: u64) -> u64 {
    if transferred + more > u64::MAX {
        u64::MAX
    } else {
        (transferred + more) as u64
    }
}

/// The state after an event at `now`.
pub open spec fn state_after(state: PipeState, event: PipeEvent, now: u64) -> PipeState {
    match event {
        PipeEvent::ClientEof => PipeState { socket_open: false, ..state },
        PipeEvent::UpstreamEof => PipeState { stream_open: false, ..state },
        PipeEvent::UpstreamData(n) => PipeState {
            transferred: counted(state.transferred, n),
            last_transmission: now,
            ..state
        },
        _ => state,
    }
}

/// What is done about an event.
pub open spec fn action_for(state: PipeState, event: PipeEvent) -> PipeAction {
    match event {
        PipeEvent::ClientEof => if state.stream_open {
            PipeAction::ShutdownUpstream
        } else {
            PipeAction::Continue
        },
        PipeEvent::ClientData => PipeAction::TransformAndWrite,
        PipeEvent::UpstreamEof => if state.socket_open {
            PipeAction::ShutdownClient
        } else {
            PipeAction::Continue
        },
        PipeEvent::UpstreamData(_) => PipeAction::WriteClient,
        PipeEvent::WouldBlock => PipeAction::Continue,
        PipeEvent::Failed => PipeAction::Abort,
    }
}

impl PipeState {
    /// A relay with both directions open that has taken nothing yet.
    pub fn new(now: u64) -> (r: Self)
        ensures
            r == (PipeState {
                socket_open: true,
                stream_open: true,
                transferred: 0,
                last_transmission: now,
            }),
    {
        PipeState { socket_open: true, stream_open: true, transferred: 0, last_transmission: now }
    }

    /// What is done at the top of the loop, at `now`.
    pub fn poll(&self, window: &StallWindow, now: u64) -> (r: PipeAction)
        ensures
            r == polled(*self, *window, now),
    {
        if !self.socket_open || !self.stream_open {
            PipeAction::Finish
        } else if now > self.last_transmission && now - self.last_transmission > window.idle_ms
            && window.low < self.transferred && self.transferred < window.high {
            PipeAction::Stalled
        } else {
            PipeAction::Wait
        }
    }

    /// Takes note of an event at `now`, and says what is done about it.
    pub fn pipe_sockets(&mut self, event: PipeEvent, now: u64) -> (r: PipeAction)
        ensures
            *final(self) == state_after(*old(self), event, now),
            r == action_for(*old(self), event),
    {
        let action = match event {
            PipeEvent::ClientEof => if self.stream_open {
                PipeAction::ShutdownUpstream
            } else {
                PipeAction::Continue
            },
            PipeEvent::ClientData => PipeAction::TransformAndWrite,
            PipeEvent::UpstreamEof => if self.socket_open {
                PipeAction::ShutdownClient
            } else {
                PipeAction::Continue
            },
            PipeEvent::UpstreamData(_) => PipeAction::WriteClient,
            PipeEvent::WouldBlock => PipeAction::Continue,
            PipeEvent::Failed => PipeAction::Abort,
        };
        match event {
            PipeEvent::ClientEof => {
                self.socket_open = false;
            },
            PipeEvent::UpstreamEof => {
                self.stream_open = false;
            },
            PipeEvent::UpstreamData(n) => {
                self.transferred = self.transferred.saturating_add(n);
                self.last_transmission = now;
            },
            _ => {},
        }
        action
    }
}

} // verus!
