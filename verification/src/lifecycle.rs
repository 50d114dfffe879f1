//! The life of a background adapter as a state machine.
//!
//! An adapter connects, polls, idles between polls and backs off after a
//! failure, until shutdown is observed. The adapter performs the work; at each
//! step it reports what happened as a [`Signal`] and is told what to do next as
//! a [`Command`].

use vstd::prelude::*;

verus! {

/// How long an adapter waits after a failure before it connects again, in
/// milliseconds.
pub const RECONNECT_BACKOFF_MS: u64 = 5000;

/// Where an adapter stands.
#[derive(Debug, Clone, Copy, PartialEq, Eq)]
pub enum Phase {
    /// Not connected; shutdown is checked before a connection is attempted.
    Disconnected,
    /// A connection attempt is under way.
    Connecting,
    /// One poll cycle is under way.
    Polling,
    /// Waiting for the next poll cycle, or for shutdown.
    Idle,
    /// Waiting after a failure, or for shutdown.
    Backoff,
    /// Shutdown was observed. Nothing follows.
    Stopped,
}

/// What the adapter reports.
#[derive(Debug, Clone, Copy, PartialEq, Eq)]
pub enum Signal {
    /// The answer to the check made before connecting.
    ShutdownChecked { pending: bool },
    /// The connection attempt succeeded.
    Connected,
    /// The connection attempt failed.
    ConnectFailed,
    /// The poll cycle ran through.
    CycleCompleted,
    /// The poll cycle was given up after a failed read.
    CycleFailed,
    /// The wait ended: `elapsed` where the interval ran out, `shutdown` where
    /// the shutdown signal was received. Both may hold.
    Woke { elapsed: bool, shutdown: bool },
    /// Nobody takes events any more: the adapter has nothing left to do.
    Fatal,
}

/// What the adapter is told to do.
#[derive(Debug, Clone, Copy, PartialEq, Eq)]
pub enum Command {
    /// Look whether shutdown is pending, without waiting.
    CheckShutdown,
    /// Attempt a connection.
    Connect,
    /// Perform one poll cycle.
    Poll,
    /// Wait for `millis` milliseconds or for shutdown, whichever comes first.
    Wait { millis: u64 },
    /// Release everything and end.
    Halt,
}

/// The phase that follows `phase` on `signal`. A signal that does not belong
/// to the phase is ignored. Where a wait ends with both the interval run out
/// and shutdown received, shutdown wins. A fatal condition stops the adapter
/// wherever it stands.
pub open spec fn next_phase(phase: Phase, signal: Signal) -> Phase {
    match (phase, signal) {
        (_, Signal::Fatal) => Phase::Stopped,
        (Phase::Disconnected, Signal::ShutdownChecked { pending }) => if pending {
            Phase::Stopped
        } else {
            Phase::Connecting
        },
        (Phase::Connecting, Signal::Connected) => Phase::Polling,
        (Phase::Connecting, Signal::ConnectFailed) => Phase::Backoff,
        (Phase::Polling, Signal::CycleCompleted) => Phase::Idle,
        (Phase::Polling, Signal::CycleFailed) => Phase::Backoff,
        (Phase::Idle, Signal::Woke { elapsed, shutdown }) => if shutdown {
            Phase::Stopped
        } else if elapsed {
            Phase::Polling
        } else {
            Phase::Idle
        },
        (Phase::Backoff, Signal::Woke { elapsed, shutdown }) => if shutdown {
            Phase::Stopped
        } else if elapsed {
            Phase::Disconnected
        } else {
            Phase::Backoff
        },
        _ => phase,
    }
}

/// What an adapter does in `phase`, given its two intervals.
pub open spec fn command_in(phase: Phase, poll_interval_ms: u64, backoff_ms: u64) -> Command {
    match phase {
        Phase::Disconnected => Command::CheckShutdown,
        Phase::Connecting => Command::Connect,
        Phase::Polling => Command::Poll,
        Phase::Idle => Command::Wait { millis: poll_interval_ms },
        Phase::Backoff => Command::Wait { millis: backoff_ms },
        Phase::Stopped => Command::Halt,
    }
}

/// The phase reached from `phase` by a sequence of signals.
pub open spec fn phase_after(phase: Phase, signals: Seq<Signal>) -> Phase
    decreases signals.len(),
{
    if signals.len() == 0 {
        phase
    } else {
        next_phase(phase_after(phase, signals.drop_last()), signals.last())
    }
}

/// An adapter's position in its life, with the intervals it waits for.
#[derive(Debug, Clone, Copy, PartialEq, Eq)]
pub struct Adapter {
    pub phase: Phase,
    pub poll_interval_ms: u64,
    pub backoff_ms: u64,
}

impl Adapter {
    /// An adapter that has yet to connect.
    pub fn new(poll_interval_ms: u64) -> (adapter: Adapter)
        ensures
            adapter == (Adapter {
                phase: Phase::Disconnected,
                poll_interval_ms,
                backoff_ms: RECONNECT_BACKOFF_MS,
            }),
    {
        Adapter { phase: Phase::Disconnected, poll_interval_ms, backoff_ms: RECONNECT_BACKOFF_MS }
    }

    /// An adapter as its settings ask for it: one that has yet to connect
    /// where `enabled` holds, and one that has stopped before it began where it
    /// does not. A source that is not enabled is never connected to and never
    /// polled.
    pub fn configured(enabled: bool, poll_interval_ms: u64) -> (adapter: Adapter)
        ensures
            adapter == (Adapter {
                phase: if enabled {
                    Phase::Disconnected
                } else {
                    Phase::Stopped
                },
                poll_interval_ms,
                backoff_ms: RECONNECT_BACKOFF_MS,
            }),
    {
        if enabled {
            Adapter::new(poll_interval_ms)
        } else {
            Adapter { phase: Phase::Stopped, poll_interval_ms, backoff_ms: RECONNECT_BACKOFF_MS }
        }
    }

    /// An adapter that needs no connection and starts by waiting for its first
    /// tick.
    pub fn ticking(interval_ms: u64) -> (adapter: Adapter)
        ensures
            adapter == (Adapter {
                phase: Phase::Idle,
                poll_interval_ms: interval_ms,
                backoff_ms: RECONNECT_BACKOFF_MS,
            }),
    {
        Adapter { phase: Phase::Idle, poll_interval_ms: interval_ms, backoff_ms: RECONNECT_BACKOFF_MS }
    }

    /// What the adapter is to do now.
    pub fn command(&self) -> (command: Command)
        ensures
            command == command_in(self.phase, self.poll_interval_ms, self.backoff_ms),
    {
        match self.phase {
            Phase::Disconnected => Command::CheckShutdown,
            Phase::Connecting => Command::Connect,
            Phase::Polling => Command::Poll,
            Phase::Idle => Command::Wait { millis: self.poll_interval_ms },
            Phase::Backoff => Command::Wait { millis: self.backoff_ms },
            Phase::Stopped => Command::Halt,
        }
    }

    /// Whether the adapter has ended.
    pub fn is_stopped(&self) -> (stopped: bool)
        ensures
            stopped == (self.phase == Phase::Stopped),
    {
        match self.phase {
            Phase::Stopped => true,
            _ => false,
        }
    }

    /// Takes what the adapter reports, moves to the next phase and says what
    /// to do there.
    pub fn step(&mut self, signal: Signal) -> (command: Command)
        ensures
            final(self).phase == next_phase(old(self).phase, signal),
            final(self).poll_interval_ms == old(self).poll_interval_ms,
            final(self).backoff_ms == old(self).backoff_ms,
            command == command_in(
                final(self).phase,
                final(self).poll_interval_ms,
                final(self).backoff_ms,
            ),
    {
        let next = match (self.phase, signal) {
            (_, Signal::Fatal) => Phase::Stopped,
            (Phase::Disconnected, Signal::ShutdownChecked { pending }) => if pending {
                Phase::Stopped
            } else {
                Phase::Connecting
            },
            (Phase::Connecting, Signal::Connected) => Phase::Polling,
            (Phase::Connecting, Signal::ConnectFailed) => Phase::Backoff,
            (Phase::Polling, Signal::CycleCompleted) => Phase::Idle,
            (Phase::Polling, Signal::CycleFailed) => Phase::Backoff,
            (Phase::Idle, Signal::Woke { elapsed, shutdown }) => if shutdown {
                Phase::Stopped
            } else if elapsed {
                Phase::Polling
            } else {
                Phase::Idle
            },
            (Phase::Backoff, Signal::Woke { elapsed, shutdown }) => if shutdown {
                Phase::Stopped
            } else if elapsed {
                Phase::Disconnected
            } else {
                Phase::Backoff
            },
            (phase, _) => phase,
        };
        self.phase = next;
        self.command()
    }
}

/// Shutdown ends every wait: an adapter that idles between polls, or backs
/// off after a failure, stops when the shutdown signal is received, also where
/// the interval has run out at the same moment. It is told to halt, not to
/// poll or to connect.
pub proof fn lemma_shutdown_preempts_wait(
    phase: Phase,
    elapsed: bool,
    poll_interval_ms: u64,
    backoff_ms: u64,
)
    requires
        phase == Phase::Idle || phase == Phase::Backoff,
    ensures
        next_phase(phase, Signal::Woke { elapsed, shutdown: true }) == Phase::Stopped,
        command_in(
            next_phase(phase, Signal::Woke { elapsed, shutdown: true }),
            poll_interval_ms,
            backoff_ms,
        ) == Command::Halt,
{
}

/// Shutdown that is pending before a connection attempt stops the adapter
/// without the attempt.
pub proof fn lemma_shutdown_preempts_connect()
    ensures
        next_phase(Phase::Disconnected, Signal::ShutdownChecked { pending: true })
            == Phase::Stopped,
{
}

/// An adapter whose source is not enabled does nothing, ever: it is told to
/// halt at once, and stays stopped whatever is reported to it.
pub proof fn lemma_disabled_adapter_never_runs(
    poll_interval_ms: u64,
    backoff_ms: u64,
    signals: Seq<Signal>,
)
    ensures
        command_in(Phase::Stopped, poll_interval_ms, backoff_ms) == Command::Halt,
        command_in(phase_after(Phase::Stopped, signals), poll_interval_ms, backoff_ms)
            == Command::Halt,
{
    lemma_stopped_is_final(signals);
}

/// A fatal condition stops the adapter in whatever phase it is.
pub proof fn lemma_fatal_condition_stops(phase: Phase)
    ensures
        next_phase(phase, Signal::Fatal) == Phase::Stopped,
{
}

/// A stopped adapter stays stopped, whatever is reported to it, however
/// often: it is never again told to poll, connect or wait.
pub proof fn lemma_stopped_is_final(signals: Seq<Signal>)
    ensures
        phase_after(Phase::Stopped, signals) == Phase::Stopped,
    decreases signals.len(),
{
    if signals.len() > 0 {
        lemma_stopped_is_final(signals.drop_last());
    }
}

/// A poll cycle starts only from a fresh connection or from an idle wait that
/// ran out without shutdown: cycles never overlap, and none starts after a
/// failure without a new connection.
pub proof fn lemma_poll_follows_connect_or_idle(phase: Phase, signal: Signal)
    requires
        phase != Phase::Polling,
        next_phase(phase, signal) == Phase::Polling,
    ensures
        (phase == Phase::Connecting && signal == Signal::Connected) || (phase == Phase::Idle
            && signal == (Signal::Woke { elapsed: true, shutdown: false })),
{
}

/// A failure, of the connection attempt or of a poll cycle, leads to the
/// backoff wait, and the backoff wait that runs out leads to a new connection
/// attempt by way of the shutdown check.
pub proof fn lemma_failure_leads_to_reconnect()
    ensures
        next_phase(Phase::Connecting, Signal::ConnectFailed) == Phase::Backoff,
        next_phase(Phase::Polling, Signal::CycleFailed) == Phase::Backoff,
        next_phase(Phase::Backoff, Signal::Woke { elapsed: true, shutdown: false })
            == Phase::Disconnected,
        next_phase(Phase::Disconnected, Signal::ShutdownChecked { pending: false })
            == Phase::Connecting,
{
}

} // verus!
