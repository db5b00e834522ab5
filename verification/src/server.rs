//! The request server's control state.  The socket work happens outside; this
//! type records the lifecycle the accept loop follows and rules its
//! transitions: stopping a server that is not running changes nothing, and
//! nothing leaves the stopped state.

use vstd::prelude::*;

verus! {

/// Lifecycle of a request server.
#[derive(Clone, Copy, Debug, PartialEq, Eq, Structural)]
pub enum ServerPhase {
    Created,
    Bound,
    Running,
    Stopping,
    Stopped,
}

/// How far along its lifecycle a phase is; transitions never lower it.
pub open spec fn phase_rank(p: ServerPhase) -> int {
    match p {
        ServerPhase::Created => 0,
        ServerPhase::Bound => 1,
        ServerPhase::Running => 2,
        ServerPhase::Stopping => 3,
        ServerPhase::Stopped => 4,
    }
}

/// The minimal request server: its address and its control state.
#[derive(Clone, Debug)]
pub struct ApiServer {
    pub host: String,
    pub port: u16,
    pub phase: ServerPhase,
}

impl ApiServer {
    /// Whether the accept loop is running.
    pub open spec fn running(self) -> bool {
        self.phase == ServerPhase::Running
    }

    /// A fresh server for an address, not yet bound.
    pub fn new(host: String, port: u16) -> (r: ApiServer)
        ensures
            r.host == host,
            r.port == port,
            r.phase == ServerPhase::Created,
            !r.running(),
    {
        ApiServer { host, port, phase: ServerPhase::Created }
    }

    /// Records that the listening socket is bound.
    pub fn note_bound(&mut self)
        requires
            old(self).phase == ServerPhase::Created,
        ensures
            final(self).phase == ServerPhase::Bound,
            final(self).host == old(self).host,
            final(self).port == old(self).port,
    {
        self.phase = ServerPhase::Bound;
    }

    /// Records that the accept loop has started.
    pub fn note_running(&mut self)
        requires
            old(self).phase == ServerPhase::Bound,
        ensures
            final(self).phase == ServerPhase::Running,
            final(self).host == old(self).host,
            final(self).port == old(self).port,
    {
        self.phase = ServerPhase::Running;
    }

    /// Asks the accept loop to exit.  Only a running server changes state;
    /// stopping any other is a no-op.
    pub fn stop(&mut self)
        ensures
            final(self).phase == (if old(self).phase == ServerPhase::Running {
                ServerPhase::Stopping
            } else {
                old(self).phase
            }),
            final(self).host == old(self).host,
            final(self).port == old(self).port,
            !final(self).running(),
            phase_rank(final(self).phase) >= phase_rank(old(self).phase),
    {
        if self.is_running() {
            self.phase = ServerPhase::Stopping;
        }
    }

    /// Records that the accept loop has exited and the socket is released.
    pub fn note_stopped(&mut self)
        requires
            old(self).phase == ServerPhase::Stopping,
        ensures
            final(self).phase == ServerPhase::Stopped,
            final(self).host == old(self).host,
            final(self).port == old(self).port,
    {
        self.phase = ServerPhase::Stopped;
    }

    /// Whether the accept loop is currently running.
    pub fn is_running(&self) -> (r: bool)
        ensures
            r == self.running(),
    {
        match self.phase {
            ServerPhase::Running => true,
            _ => false,
        }
    }
}

/// Law: the stopped state is terminal under `stop`, and `stop` never moves
/// a server backwards through its lifecycle.
pub proof fn lemma_stopped_is_terminal(before: ApiServer, after: ApiServer)
    requires
        after.phase == (if before.phase == ServerPhase::Running {
            ServerPhase::Stopping
        } else {
            before.phase
        }),
    ensures
        before.phase == ServerPhase::Stopped ==> after.phase == ServerPhase::Stopped,
        phase_rank(after.phase) >= phase_rank(before.phase),
{
}

} // verus!
