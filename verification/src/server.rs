//! Connection server decision logic.
//!
//! The accept loop and the per-connection handlers do I/O, which lives with
//! the caller; every decision they take lives here as a verified step
//! function. A [`Server`] holds the immutable response buffer. One call of
//! [`Server::on_accept`] decides one iteration of the accept loop: a
//! successful accept yields a fresh [`Handler`] carrying exactly the server's
//! buffer, a failed accept yields a report and nothing else — there is no
//! action that stops the loop, so a failed accept can never end the server.
//! A [`Handler`] walks the per-connection lifecycle
//! `Accepted -> Writing -> (WriteFailed | WriteSucceeded) ->
//! (ShutdownFailed | Closed)`; each step speaks only of that handler's own
//! state, so no connection's outcome can reach another.

use vstd::prelude::*;
use vstd::string::StringExecFns;

verus! {

/// The lifecycle state of one connection handler.
#[derive(Clone, Copy, PartialEq, Eq, Structural, Debug)]
pub enum Phase {
    /// The connection was just accepted and nothing was written yet.
    Accepted,
    /// The write of the response buffer is in flight.
    Writing,
    /// The write failed; the handler ends after reporting.
    WriteFailed,
    /// The write succeeded; the write half is still to be shut down.
    WriteSucceeded,
    /// The shutdown of the write half failed; the handler ends.
    ShutdownFailed,
    /// The write half was shut down cleanly; the handler ends.
    Closed,
}

/// The handler phase after the write completes with success `ok`.
pub open spec fn write_step(ok: bool) -> Phase {
    if ok {
        Phase::WriteSucceeded
    } else {
        Phase::WriteFailed
    }
}

/// The handler phase after the shutdown completes with success `ok`.
pub open spec fn shutdown_step(ok: bool) -> Phase {
    if ok {
        Phase::Closed
    } else {
        Phase::ShutdownFailed
    }
}

/// A phase in which the handler has finished and takes no further step.
pub open spec fn is_terminal(phase: Phase) -> bool {
    phase is ShutdownFailed || phase is Closed
}

/// One connection handler: the state of a single accepted connection and the
/// bytes it owes the client.
pub struct Handler {
    phase: Phase,
    response: String,
}

impl Handler {
    /// The lifecycle state of this handler.
    pub closed spec fn phase(&self) -> Phase {
        self.phase
    }

    /// The bytes this handler writes to its connection.
    pub closed spec fn response_text(&self) -> Seq<char> {
        self.response@
    }

    fn new(response: String) -> (h: Handler)
        ensures
            h.phase() is Accepted,
            h.response_text() == response@,
    {
        Handler { phase: Phase::Accepted, response }
    }

    /// The current phase, for callers driving the connection.
    pub fn current_phase(&self) -> (p: Phase)
        ensures
            p == self.phase(),
    {
        self.phase
    }

    /// Begins the write: hands out the exact bytes to put on the wire, in one
    /// logical write with no other framing.
    pub fn begin_write(&mut self) -> (payload: String)
        requires
            old(self).phase() is Accepted,
        ensures
            final(self).phase() is Writing,
            final(self).response_text() == old(self).response_text(),
            payload@ == old(self).response_text(),
    {
        self.phase = Phase::Writing;
        self.response.clone()
    }

    /// Records the outcome of the write. A failure is fatal only to this
    /// handler; the caller reports it and drives the shutdown either way, as
    /// the lifecycle prescribes.
    pub fn on_write_result(&mut self, ok: bool)
        requires
            old(self).phase() is Writing,
        ensures
            final(self).phase() == write_step(ok),
            final(self).response_text() == old(self).response_text(),
    {
        self.phase = if ok {
            Phase::WriteSucceeded
        } else {
            Phase::WriteFailed
        };
    }

    /// Records the outcome of shutting down the connection's write half. The
    /// handler is terminal afterwards, whatever the outcome.
    pub fn on_shutdown_result(&mut self, ok: bool)
        requires
            old(self).phase() is WriteSucceeded || old(self).phase() is WriteFailed,
        ensures
            final(self).phase() == shutdown_step(ok),
            final(self).response_text() == old(self).response_text(),
            is_terminal(final(self).phase()),
    {
        self.phase = if ok {
            Phase::Closed
        } else {
            Phase::ShutdownFailed
        };
    }
}

/// The decision of one accept-loop iteration.
pub enum AcceptAction {
    /// Serve the new connection: a fresh handler owing exactly the server's
    /// buffer.
    Dispatch(Handler),
    /// The accept failed: report it and keep accepting. No variant stops the
    /// loop.
    Report,
}

/// The connection server: the one immutable buffer every connection receives.
pub struct Server {
    response: String,
}

impl Server {
    /// The response buffer this server serves.
    pub closed spec fn response_text(&self) -> Seq<char> {
        self.response@
    }

    /// Takes ownership of the finished response buffer. The buffer is never
    /// mutated afterwards: every contract below hands out exactly this text.
    pub fn new(response: String) -> (s: Server)
        ensures
            s.response_text() == response@,
    {
        Server { response }
    }

    /// Decides one iteration of the accept loop from the outcome of the
    /// `accept` call. A success dispatches a handler that owes the client
    /// exactly the server's buffer; a failure is reported and the loop goes
    /// on. The server itself is never consumed or changed.
    pub fn on_accept(&self, accepted: bool) -> (a: AcceptAction)
        ensures
            accepted ==> a is Dispatch && a->Dispatch_0.phase() is Accepted
                && a->Dispatch_0.response_text() == self.response_text(),
            !accepted ==> a is Report,
    {
        if accepted {
            AcceptAction::Dispatch(Handler::new(self.response.clone()))
        } else {
            AcceptAction::Report
        }
    }
}

} // verus!
