//! System-wide model of the running server.
//!
//! One server process is modelled as a state: the immutable response buffer,
//! the listener, and one [`ConnState`] per accepted connection. Events are
//! the outcomes the world hands the process — an accept that succeeded or
//! failed, a write or shutdown that completed on one connection — and
//! [`system_next`] is the transition the step functions in [`crate::server`]
//! implement per connection. The lemmas below state the properties of every
//! run: every served connection receives exactly the buffer, no connection's
//! fate touches another, and a failed accept changes nothing at all.

use crate::server::Phase;
use crate::server::is_terminal;
use crate::server::shutdown_step;
use crate::server::write_step;
use vstd::prelude::*;

verus! {

/// One connection in the model: its handler phase, and the response it
/// received in full, once it has.
pub struct ConnState {
    pub phase: Phase,
    pub received: Option<Seq<char>>,
}

/// The whole server process.
pub struct SystemState {
    /// The immutable response buffer, fixed before the accept loop starts.
    pub response: Seq<char>,
    /// Whether the listener is accepting. No event ever clears it.
    pub listening: bool,
    /// Every connection accepted so far, in accept order.
    pub conns: Seq<ConnState>,
}

/// An outcome the world hands the process.
pub enum SystemEvent {
    /// An `accept` call returned a connection.
    AcceptOk,
    /// An `accept` call failed.
    AcceptFail,
    /// Handler `i` put the buffer on the wire.
    BeginWrite(int),
    /// The write on connection `i` completed with success `ok`.
    WriteDone { i: int, ok: bool },
    /// The shutdown of connection `i`'s write half completed with success
    /// `ok`.
    ShutdownDone { i: int, ok: bool },
}

/// The state before any connection: listening, no connections, buffer fixed.
pub open spec fn system_init(response: Seq<char>) -> SystemState {
    SystemState { response, listening: true, conns: Seq::<ConnState>::empty() }
}

pub open spec fn conn_valid(s: SystemState, i: int) -> bool {
    0 <= i < s.conns.len()
}

/// The connection an event belongs to, if it belongs to one.
pub open spec fn event_conn(e: SystemEvent) -> Option<int> {
    match e {
        SystemEvent::AcceptOk => None,
        SystemEvent::AcceptFail => None,
        SystemEvent::BeginWrite(i) => Some(i),
        SystemEvent::WriteDone { i, ok: _ } => Some(i),
        SystemEvent::ShutdownDone { i, ok: _ } => Some(i),
    }
}

/// One step of the process. A successful accept appends a fresh connection;
/// a failed accept changes nothing; a connection event steps that one
/// connection through the handler lifecycle, recording the delivered bytes on
/// a successful write. An event that does not fit the connection's phase
/// changes nothing.
pub open spec fn system_next(s: SystemState, e: SystemEvent) -> SystemState {
    match e {
        SystemEvent::AcceptOk => SystemState {
            response: s.response,
            listening: s.listening,
            conns: s.conns.push(ConnState { phase: Phase::Accepted, received: None }),
        },
        SystemEvent::AcceptFail => s,
        SystemEvent::BeginWrite(i) => {
            if conn_valid(s, i) && s.conns[i].phase is Accepted {
                SystemState {
                    response: s.response,
                    listening: s.listening,
                    conns: s.conns.update(
                        i,
                        ConnState { phase: Phase::Writing, received: s.conns[i].received },
                    ),
                }
            } else {
                s
            }
        },
        SystemEvent::WriteDone { i, ok } => {
            if conn_valid(s, i) && s.conns[i].phase is Writing {
                SystemState {
                    response: s.response,
                    listening: s.listening,
                    conns: s.conns.update(
                        i,
                        ConnState {
                            phase: write_step(ok),
                            received: if ok {
                                Some(s.response)
                            } else {
                                s.conns[i].received
                            },
                        },
                    ),
                }
            } else {
                s
            }
        },
        SystemEvent::ShutdownDone { i, ok } => {
            if conn_valid(s, i) && (s.conns[i].phase is WriteSucceeded || s.conns[i].phase
                is WriteFailed) {
                SystemState {
                    response: s.response,
                    listening: s.listening,
                    conns: s.conns.update(
                        i,
                        ConnState { phase: shutdown_step(ok), received: s.conns[i].received },
                    ),
                }
            } else {
                s
            }
        },
    }
}

/// The process after a whole run of events from a fresh start.
pub open spec fn system_run(response: Seq<char>, events: Seq<SystemEvent>) -> SystemState
    decreases events.len(),
{
    if events.len() == 0 {
        system_init(response)
    } else {
        system_next(system_run(response, events.drop_last()), events.last())
    }
}

/// What holds of every reachable state: the process listens, the buffer is
/// the one it started with, and whatever any connection received is exactly
/// that buffer.
pub open spec fn inv(s: SystemState) -> bool {
    &&& s.listening
    &&& forall|i: int|
        conn_valid(s, i) && (#[trigger] s.conns[i].received) is Some ==> s.conns[i].received
            == Some(s.response)
}

pub proof fn lemma_init_inv(response: Seq<char>)
    ensures
        inv(system_init(response)),
        system_init(response).response == response,
{
}

pub proof fn lemma_next_preserves_inv(s: SystemState, e: SystemEvent)
    requires
        inv(s),
    ensures
        inv(system_next(s, e)),
        system_next(s, e).response == s.response,
        system_next(s, e).listening,
{
}

pub proof fn lemma_run_inv(response: Seq<char>, events: Seq<SystemEvent>)
    ensures
        inv(system_run(response, events)),
        system_run(response, events).response == response,
    decreases events.len(),
{
    if events.len() == 0 {
        lemma_init_inv(response);
    } else {
        lemma_run_inv(response, events.drop_last());
        lemma_next_preserves_inv(system_run(response, events.drop_last()), events.last());
    }
}

/// Determinism: in any run, every connection that received a response
/// received byte-for-byte the server's buffer — so any two served
/// connections received the same bytes, whatever the number of clients and
/// the order of events.
pub proof fn lemma_determinism(response: Seq<char>, events: Seq<SystemEvent>, i: int, j: int)
    requires
        conn_valid(system_run(response, events), i),
        conn_valid(system_run(response, events), j),
        system_run(response, events).conns[i].received is Some,
        system_run(response, events).conns[j].received is Some,
    ensures
        system_run(response, events).conns[i].received == Some(response),
        system_run(response, events).conns[i].received == system_run(
            response,
            events,
        ).conns[j].received,
{
    lemma_run_inv(response, events);
}

/// No cross-talk: an event on one connection leaves every other connection,
/// the listener and the buffer exactly as they were.
pub proof fn lemma_no_cross_talk(s: SystemState, e: SystemEvent, j: int)
    requires
        conn_valid(s, j),
        event_conn(e) != Some(j),
    ensures
        conn_valid(system_next(s, e), j),
        system_next(s, e).conns[j] == s.conns[j],
        system_next(s, e).listening == s.listening,
        system_next(s, e).response == s.response,
{
}

/// A write failure on connection `i` never affects connection `j`: `j`'s
/// write still delivers the full, correct buffer afterwards.
pub proof fn lemma_failure_does_not_block(s: SystemState, i: int, j: int)
    requires
        conn_valid(s, i),
        conn_valid(s, j),
        i != j,
        s.conns[i].phase is Writing,
        s.conns[j].phase is Writing,
    ensures
        ({
            let after_failure = system_next(s, SystemEvent::WriteDone { i, ok: false });
            let after_both = system_next(after_failure, SystemEvent::WriteDone { i: j, ok: true });
            after_both.conns[j].received == Some(s.response)
        }),
{
}

/// Liveness after a failed accept, first half: the failure changes nothing —
/// the server still listens and every connection stands as it was.
pub proof fn lemma_accept_failure_harmless(s: SystemState)
    ensures
        system_next(s, SystemEvent::AcceptFail) == s,
{
}

/// Liveness after a failed accept, second half: the connection accepted next
/// is accepted and served exactly as if the failure had not happened.
pub proof fn lemma_liveness_after_accept_failure(s: SystemState)
    ensures
        system_next(system_next(s, SystemEvent::AcceptFail), SystemEvent::AcceptOk) == system_next(
            s,
            SystemEvent::AcceptOk,
        ),
        ({
            let accepted = system_next(system_next(s, SystemEvent::AcceptFail), SystemEvent::AcceptOk);
            let k = s.conns.len() as int;
            let writing = system_next(accepted, SystemEvent::BeginWrite(k));
            let served = system_next(writing, SystemEvent::WriteDone { i: k, ok: true });
            conn_valid(served, k) && served.conns[k].received == Some(s.response)
        }),
{
}

/// Every terminal phase stays terminal: a finished handler takes no further
/// step in any run.
pub proof fn lemma_terminal_stays(s: SystemState, e: SystemEvent, j: int)
    requires
        conn_valid(s, j),
        is_terminal(s.conns[j].phase),
    ensures
        conn_valid(system_next(s, e), j),
        system_next(s, e).conns[j] == s.conns[j],
{
}

} // verus!
