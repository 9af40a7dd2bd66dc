//! The accept loop's decisions: each round races a shutdown signal against a
//! new connection, and the first that is ready decides the round.
use vstd::prelude::*;

use crate::handler::{exit_command, stop_command, stopping_reply};
use crate::session::{session_step, ActionModel, EventModel};

verus! {

/// What won one round of the accept loop.
#[derive(Debug, Clone, Copy, PartialEq, Eq, Structural)]
pub enum ListenerEvent {
    /// A session asked the server to stop.
    ShutdownSignalled,
    /// A connection was accepted.
    Accepted,
    /// Accepting failed; such failures are taken to be transient.
    AcceptFailed,
}

/// What the accept loop is to do after a round.
#[derive(Debug, Clone, Copy, PartialEq, Eq, Structural)]
pub enum ListenerAction {
    /// Start a session of its own for the accepted connection, then go on
    /// accepting.
    SpawnSession,
    /// Note the failure and go on accepting.
    Continue,
    /// Leave the loop: no connection is accepted from now on. Sessions
    /// already started run on until they end by themselves.
    Exit,
}

/// One round of the accept loop: from whether it is running and what won the
/// round, to whether it runs on and what to do.
pub open spec fn listener_step(running: bool, ev: ListenerEvent) -> (bool, ListenerAction) {
    if !running {
        (false, ListenerAction::Exit)
    } else {
        match ev {
            ListenerEvent::ShutdownSignalled => (false, ListenerAction::Exit),
            ListenerEvent::Accepted => (true, ListenerAction::SpawnSession),
            ListenerEvent::AcceptFailed => (true, ListenerAction::Continue),
        }
    }
}

/// The accept loop fed the rounds `evs` in order: whether it is running at
/// the end, and its action for each round.
pub open spec fn listener_run(running: bool, evs: Seq<ListenerEvent>) -> (bool, Seq<ListenerAction>)
    decreases evs.len(),
{
    if evs.len() == 0 {
        (running, Seq::empty())
    } else {
        let (next, a) = listener_step(running, evs[0]);
        let (last, rest) = listener_run(next, evs.drop_first());
        (last, seq![a] + rest)
    }
}

/// A stopped accept loop leaves at every later round and starts no session.
pub proof fn lemma_stopped_stays_stopped(evs: Seq<ListenerEvent>)
    ensures
        listener_run(false, evs) == (false, Seq::new(evs.len(), |i: int| ListenerAction::Exit)),
    decreases evs.len(),
{
    if evs.len() > 0 {
        lemma_stopped_stays_stopped(evs.drop_first());
        assert(Seq::new(evs.len(), |i: int| ListenerAction::Exit) =~= seq![ListenerAction::Exit]
            + Seq::new(evs.drop_first().len(), |i: int| ListenerAction::Exit));
    } else {
        assert(Seq::new(evs.len(), |i: int| ListenerAction::Exit) =~= Seq::empty());
    }
}

/// The stop command on an open session is answered with `STOPPING SERVER`,
/// closes that session and asks the server to stop. Once the accept loop
/// sees that signal it leaves, and whatever would come after, no new
/// connection gets a session.
pub proof fn lemma_stop_ends_accepting(evs: Seq<ListenerEvent>)
    ensures
        session_step(true, EventModel::Line(stop_command())) == (
        false,
        ActionModel::StopServer(stopping_reply()),
        ),
        listener_run(true, seq![ListenerEvent::ShutdownSignalled] + evs) == (
        false,
        Seq::new(evs.len() + 1, |i: int| ListenerAction::Exit),
        ),
        forall|i: int|
            0 <= i < evs.len() + 1 ==> #[trigger] listener_run(
                true,
                seq![ListenerEvent::ShutdownSignalled] + evs,
            ).1[i] != ListenerAction::SpawnSession,
{
    assert(stop_command()[0] != exit_command()[0]);
    let all = seq![ListenerEvent::ShutdownSignalled] + evs;
    assert(all.drop_first() =~= evs);
    lemma_stopped_stays_stopped(evs);
    assert(Seq::new(evs.len() + 1, |i: int| ListenerAction::Exit) =~= seq![ListenerAction::Exit]
        + Seq::new(evs.len(), |i: int| ListenerAction::Exit));
}

/// The state of the accept loop: running until a shutdown signal is seen,
/// then stopped for good.
pub struct Listener {
    pub running: bool,
}

impl Listener {
    /// The accept loop of a server whose socket has just been bound.
    pub fn new() -> (l: Listener)
        ensures
            l.running,
    {
        Listener { running: true }
    }

    /// Whether new connections are still accepted.
    pub fn is_running(&self) -> (r: bool)
        ensures
            r == self.running,
    {
        self.running
    }

    /// Decides one round of the accept loop.
    pub fn step(&mut self, ev: ListenerEvent) -> (a: ListenerAction)
        ensures
            (final(self).running, a) == listener_step(old(self).running, ev),
    {
        if !self.running {
            return ListenerAction::Exit;
        }
        match ev {
            ListenerEvent::ShutdownSignalled => {
                self.running = false;
                ListenerAction::Exit
            },
            ListenerEvent::Accepted => ListenerAction::SpawnSession,
            ListenerEvent::AcceptFailed => ListenerAction::Continue,
        }
    }
}

} // verus!
