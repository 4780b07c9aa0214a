//! The accept loop's decisions: what a bind or an accept outcome leads to.
use vstd::prelude::*;

use crate::relay::{conn_fresh, Connection};
use crate::transport::TransportError;

verus! {

/// What to do when accepting a connection fails.
#[derive(Clone, Copy, PartialEq, Eq, Debug, Structural)]
pub enum AcceptPolicy {
    /// Stop the whole server at the first failed accept, taking every open
    /// connection down with it.
    StopServer,
    /// Report the failure and accept the next connection.
    KeepAccepting,
}

impl Default for AcceptPolicy {
    /// Keeping on accepting is the default: one transient failure (too many
    /// open files, say) should not end every connection.  `StopServer` keeps
    /// the stricter behaviour for those who want it.
    fn default() -> (r: AcceptPolicy)
        ensures
            r == AcceptPolicy::KeepAccepting,
    {
        AcceptPolicy::KeepAccepting
    }
}

/// Where the listener stands.
#[derive(Clone, Copy, PartialEq, Eq, Debug, Structural)]
pub enum ListenerPhase {
    /// Waiting for the listening socket to be bound.
    Binding,
    /// Accepting connections.
    Listening,
    /// The server has ended.
    Stopped,
}

/// An error that ends the whole server.
pub enum ServerError {
    /// The listen address could not be bound.
    Bind(TransportError),
    /// An accept failed under `AcceptPolicy::StopServer`.
    Accept(TransportError),
}

/// What to do with the outcome of one accept.
pub enum AcceptDecision {
    /// Hand this new connection to a unit of work of its own, then accept again.
    Dispatch(Connection),
    /// Report this failure, then accept again.
    Skip(TransportError),
    /// End the server with this error.
    Halt(ServerError),
}

/// The model of a listener.
pub struct ListenerView {
    pub policy: AcceptPolicy,
    pub phase: ListenerPhase,
}

/// The listener after one accept, successful or not.
pub open spec fn listener_next(v: ListenerView, accepted: bool) -> ListenerView {
    if !accepted && v.policy == AcceptPolicy::StopServer {
        ListenerView { phase: ListenerPhase::Stopped, ..v }
    } else {
        v
    }
}

/// The listener after a sequence of accepts, taken while it listens.
pub open spec fn listener_run(v: ListenerView, accepts: Seq<bool>) -> ListenerView
    decreases accepts.len(),
{
    if accepts.len() == 0 || v.phase != ListenerPhase::Listening {
        v
    } else {
        listener_run(listener_next(v, accepts[0]), accepts.drop_first())
    }
}

/// A listener that keeps accepting is never stopped by what happens on
/// accepts, nor by anything else: whatever sequence of successes and failures
/// it meets, it is still listening afterwards.
pub proof fn lemma_keeps_accepting(v: ListenerView, accepts: Seq<bool>)
    requires
        v.policy == AcceptPolicy::KeepAccepting,
        v.phase == ListenerPhase::Listening,
    ensures
        listener_run(v, accepts) == v,
    decreases accepts.len(),
{
    if accepts.len() > 0 {
        lemma_keeps_accepting(listener_next(v, accepts[0]), accepts.drop_first());
    }
}

/// A listener that stops on failure is stopped after a sequence of accepts
/// exactly when one of them failed.
pub proof fn lemma_stops_on_failure(v: ListenerView, accepts: Seq<bool>)
    requires
        v.policy == AcceptPolicy::StopServer,
        v.phase == ListenerPhase::Listening,
    ensures
        listener_run(v, accepts).phase == ListenerPhase::Stopped <==> exists|i: int|
            0 <= i < accepts.len() && !#[trigger] accepts[i],
        listener_run(v, accepts).phase != ListenerPhase::Stopped ==> listener_run(v, accepts)
            == v,
    decreases accepts.len(),
{
    if accepts.len() > 0 {
        let rest = accepts.drop_first();
        if accepts[0] {
            lemma_stops_on_failure(v, rest);
            if exists|i: int| 0 <= i < rest.len() && !#[trigger] rest[i] {
                let i = choose|i: int| 0 <= i < rest.len() && !#[trigger] rest[i];
                assert(!accepts[i + 1]);
            }
            if exists|i: int| 0 <= i < accepts.len() && !#[trigger] accepts[i] {
                let i = choose|i: int| 0 <= i < accepts.len() && !#[trigger] accepts[i];
                assert(!rest[i - 1]);
            }
        } else {
            let s = listener_next(v, false);
            assert(listener_run(s, rest) == s);
            assert(!accepts[0]);
        }
    }
}

/// The server's listening side.
pub struct Listener {
    policy: AcceptPolicy,
    phase: ListenerPhase,
}

impl View for Listener {
    type V = ListenerView;

    closed spec fn view(&self) -> ListenerView {
        ListenerView { policy: self.policy, phase: self.phase }
    }
}

impl Listener {
    /// A listener that is yet to bind its socket.
    pub fn new(policy: AcceptPolicy) -> (r: Listener)
        ensures
            r@ == (ListenerView { policy, phase: ListenerPhase::Binding }),
    {
        Listener { policy, phase: ListenerPhase::Binding }
    }

    pub fn policy(&self) -> (r: AcceptPolicy)
        ensures
            r == self@.policy,
    {
        self.policy
    }

    pub fn phase(&self) -> (r: ListenerPhase)
        ensures
            r == self@.phase,
    {
        self.phase
    }

    /// Takes the outcome of binding the listen address: the server listens,
    /// or ends with a bind error.
    pub fn on_bound(&mut self, outcome: Result<(), TransportError>) -> (r: Result<(), ServerError>)
        requires
            old(self)@.phase == ListenerPhase::Binding,
        ensures
            final(self)@.policy == old(self)@.policy,
            outcome is Ok ==> r is Ok && final(self)@.phase == ListenerPhase::Listening,
            outcome matches Err(e) ==> r == Err::<(), ServerError>(ServerError::Bind(e))
                && final(self)@.phase == ListenerPhase::Stopped,
    {
        match outcome {
            Ok(()) => {
                self.phase = ListenerPhase::Listening;
                Ok(())
            },
            Err(e) => {
                self.phase = ListenerPhase::Stopped;
                Err(ServerError::Bind(e))
            },
        }
    }

    /// Takes the outcome of one accept.  A new client connection is always
    /// dispatched, as a fresh connection of its own; a failure stops the
    /// server or is skipped, as the policy says.
    pub fn on_accept(&mut self, outcome: Result<(), TransportError>) -> (r: AcceptDecision)
        requires
            old(self)@.phase == ListenerPhase::Listening,
        ensures
            final(self)@ == listener_next(old(self)@, outcome is Ok),
            outcome is Ok ==> (r matches AcceptDecision::Dispatch(c) && c.wf() && c@
                == conn_fresh()),
            outcome matches Err(e) ==> if old(self)@.policy == AcceptPolicy::StopServer {
                r == AcceptDecision::Halt(ServerError::Accept(e))
            } else {
                r == AcceptDecision::Skip(e)
            },
    {
        match outcome {
            Ok(()) => AcceptDecision::Dispatch(Connection::new()),
            Err(e) => match self.policy {
                AcceptPolicy::StopServer => {
                    self.phase = ListenerPhase::Stopped;
                    AcceptDecision::Halt(ServerError::Accept(e))
                },
                AcceptPolicy::KeepAccepting => AcceptDecision::Skip(e),
            },
        }
    }
}

} // verus!
