//! Acquisition-side state machine. The surrounding task owns the timers and
//! the transport; this module owns every decision: which state follows which
//! event, and what, if anything, is published toward the consumer.

pub mod games;

use vstd::prelude::*;
use crate::telemetry::{GameId, Telemetry};

verus! {

/// How long the acquisition loop waits for the next decoded sample before it
/// declares the source dead, in milliseconds.
pub const SOURCE_TIMEOUT_MS: u64 = 500;

/// How long the acquisition loop waits between discovery attempts while no
/// source is bound, in milliseconds.
pub const DISCOVERY_BACKOFF_MS: u64 = 150;

/// What the poll of an active source produced, as observed by the
/// surrounding task: a decoded sample, an end-of-stream signal from the
/// adapter (its decode yielded no value), or the expiry of the
/// `SOURCE_TIMEOUT_MS` timer before either.
pub enum PollEvent {
    Sample(Telemetry),
    EndOfStream,
    TimedOut,
}

/// The acquisition loop's state: at most one source adapter is bound at a
/// time, identified by its `GameId`; the transport itself lives with the
/// surrounding task.
pub struct Backend {
    game_backend: Option<GameId>,
}

impl Backend {
    /// Which source adapter is bound, if any.
    pub closed spec fn active_game(self) -> Option<GameId> {
        self.game_backend
    }

    /// The loop starts idle: no source bound.
    pub fn new() -> (r: Backend)
        ensures
            r.active_game() is None,
    {
        Backend { game_backend: None }
    }

    /// Exposes the current state to the surrounding task, which needs it to
    /// choose between polling the source and running discovery.
    pub fn is_active(&self) -> (r: bool)
        ensures
            r == (self.active_game() is Some),
    {
        self.game_backend.is_some()
    }

    /// One step of the `Active` state. A sample keeps the source bound and
    /// is handed back for publication; a timeout or an end-of-stream signal
    /// drops the source (the sole liveness signal — the wire protocol has no
    /// heartbeat), after which the loop is idle and discovery resumes.
    pub fn on_poll_event(&mut self, event: PollEvent) -> (publish: Option<Telemetry>)
        requires
            old(self).active_game() is Some,
        ensures
            match event {
                PollEvent::Sample(t) => {
                    &&& final(self).active_game() == old(self).active_game()
                    &&& publish == Some(t)
                },
                PollEvent::EndOfStream => {
                    &&& final(self).active_game() is None
                    &&& publish is None
                },
                PollEvent::TimedOut => {
                    &&& final(self).active_game() is None
                    &&& publish is None
                },
            },
    {
        match event {
            PollEvent::Sample(t) => Some(t),
            PollEvent::EndOfStream => {
                self.game_backend = None;
                None
            },
            PollEvent::TimedOut => {
                self.game_backend = None;
                None
            },
        }
    }

    /// One step of the `Idle` state, taken after the discovery backoff:
    /// binds whichever source discovery managed to open (or stays idle), and
    /// always hands back the sentinel snapshot for publication so that
    /// downstream consumers can recognize "no source connected".
    pub fn on_idle_tick(&mut self, discovered: Option<GameId>) -> (publish: Telemetry)
        requires
            old(self).active_game() is None,
        ensures
            final(self).active_game() == discovered,
            publish == Telemetry::sentinel(),
    {
        self.game_backend = discovered;
        Telemetry::default()
    }
}

} // verus!
