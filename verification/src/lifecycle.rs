//! The lifecycle controller's decisions: when the relay shuts down and when
//! the process leaves.

use vstd::prelude::*;
use crate::relay::RelayCore;

verus! {

/// Where the process stands.
#[derive(Clone, Copy, Debug, PartialEq, Eq)]
pub enum Phase {
    /// Serving requests and relaying.
    Running,
    /// Shutdown has begun: no new requests, open streams run out.
    Draining,
    /// The endpoint has stopped; the process leaves.
    Stopped,
}

/// What can set a shutdown off.
#[derive(Clone, Copy, Debug, PartialEq, Eq)]
pub enum Trigger {
    /// An interrupt from the terminal.
    Interrupt,
    /// A request to terminate.
    Terminate,
    /// The endpoint's own task has ended.
    ServerFinished,
}

/// What the controller has the process do.
#[derive(Clone, Copy, Debug, PartialEq, Eq)]
pub enum Directive {
    /// Nothing new.
    Carry,
    /// Stop taking requests and let open streams run out.
    BeginShutdown,
    /// Leave.
    Exit,
}

/// The phase after `trigger` arrives in `phase`. The two signals count
/// alike; the endpoint's end stops everything.
pub open spec fn next_phase(phase: Phase, trigger: Trigger) -> Phase {
    match (phase, trigger) {
        (_, Trigger::ServerFinished) => Phase::Stopped,
        (Phase::Running, _) => Phase::Draining,
        (p, _) => p,
    }
}

/// What `trigger` in `phase` asks of the process.
pub open spec fn directive_for(phase: Phase, trigger: Trigger) -> Directive {
    match (phase, trigger) {
        (Phase::Stopped, _) => Directive::Exit,
        (_, Trigger::ServerFinished) => Directive::Exit,
        (Phase::Running, _) => Directive::BeginShutdown,
        (Phase::Draining, _) => Directive::Carry,
    }
}

/// The controller's state.
pub struct Lifecycle {
    pub phase: Phase,
}

impl Lifecycle {
    /// A controller for a process that has just started.
    pub fn new() -> (out: Lifecycle)
        ensures
            out.phase == Phase::Running,
    {
        Lifecycle { phase: Phase::Running }
    }

    /// Whether the process is to leave.
    pub fn is_stopped(&self) -> (b: bool)
        ensures
            b == (self.phase == Phase::Stopped),
    {
        match self.phase {
            Phase::Stopped => true,
            _ => false,
        }
    }

    /// Takes one trigger. The first one in a running process closes the
    /// relay, so that every open stream finishes once it has read what is
    /// retained; later ones leave the relay as it is.
    pub fn on_trigger(&mut self, relay: &mut RelayCore, trigger: Trigger) -> (out: Directive)
        requires
            old(relay).wf(),
        ensures
            final(relay).wf(),
            final(self).phase == next_phase(old(self).phase, trigger),
            out == directive_for(old(self).phase, trigger),
            final(relay)@ == if old(self).phase == Phase::Running {
                old(relay)@.close()
            } else {
                old(relay)@
            },
    {
        let before = self.phase;
        if let Phase::Running = before {
            relay.close();
        }
        match (before, trigger) {
            (Phase::Stopped, _) => Directive::Exit,
            (_, Trigger::ServerFinished) => {
                self.phase = Phase::Stopped;
                Directive::Exit
            },
            (Phase::Running, _) => {
                self.phase = Phase::Draining;
                Directive::BeginShutdown
            },
            (Phase::Draining, _) => Directive::Carry,
        }
    }
}

/// An interrupt and a request to terminate set off the same shutdown.
pub proof fn lemma_signals_alike(phase: Phase)
    ensures
        next_phase(phase, Trigger::Interrupt) == next_phase(phase, Trigger::Terminate),
        directive_for(phase, Trigger::Interrupt) == directive_for(phase, Trigger::Terminate),
{
}

/// Shutdown is one-way: no trigger brings a process back to running, and a
/// stopped process stays stopped.
pub proof fn lemma_shutdown_is_final(phase: Phase, trigger: Trigger)
    ensures
        next_phase(phase, trigger) != Phase::Running,
        phase == Phase::Stopped ==> next_phase(phase, trigger) == Phase::Stopped,
        next_phase(phase, trigger) == Phase::Stopped ==> directive_for(phase, trigger)
            == Directive::Exit,
{
}

} // verus!
