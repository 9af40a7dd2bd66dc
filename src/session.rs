//! One connection's session: what it does with each thing its line
//! transport reports, until the connection is closed.
use vstd::prelude::*;

use crate::handler::{
    bye_reply, bye_text, exit_command, handle_line, is_command, lemma_reversed_twice, reversed,
    stop_command,
    stopping_reply, stopping_text, Outcome,
};

verus! {

/// What the line transport of a connection reports.
#[derive(Debug, PartialEq, Eq)]
pub enum SessionEvent {
    /// A complete, decoded line (without its terminator).
    Line(String),
    /// The transport could not decode the bytes it received as a line.
    DecodeFailed,
    /// A reply could not be written to the peer.
    SendFailed,
    /// The peer closed its side of the connection.
    EndOfStream,
}

/// What the driver of a session is to do next.
#[derive(Debug, PartialEq, Eq)]
pub enum SessionAction {
    /// Nothing to send: wait for the next line.
    Continue,
    /// Send this reply, then wait for the next line.
    Reply(String),
    /// Send this reply, then close the connection.
    ReplyAndClose(String),
    /// Ask the server to stop (best effort), send this reply, then close the
    /// connection.
    StopServer(String),
    /// Close the connection; nothing is sent.
    Close,
}

/// A session event, with the text of a line as a sequence of characters.
pub enum EventModel {
    Line(Seq<char>),
    DecodeFailed,
    SendFailed,
    EndOfStream,
}

/// A session action, with the text of a reply as a sequence of characters.
pub enum ActionModel {
    Continue,
    Reply(Seq<char>),
    ReplyAndClose(Seq<char>),
    StopServer(Seq<char>),
    Close,
}

impl View for SessionEvent {
    type V = EventModel;

    open spec fn view(&self) -> EventModel {
        match self {
            SessionEvent::Line(s) => EventModel::Line(s@),
            SessionEvent::DecodeFailed => EventModel::DecodeFailed,
            SessionEvent::SendFailed => EventModel::SendFailed,
            SessionEvent::EndOfStream => EventModel::EndOfStream,
        }
    }
}

impl View for SessionAction {
    type V = ActionModel;

    open spec fn view(&self) -> ActionModel {
        match self {
            SessionAction::Continue => ActionModel::Continue,
            SessionAction::Reply(s) => ActionModel::Reply(s@),
            SessionAction::ReplyAndClose(s) => ActionModel::ReplyAndClose(s@),
            SessionAction::StopServer(s) => ActionModel::StopServer(s@),
            SessionAction::Close => ActionModel::Close,
        }
    }
}

/// One step of a session: from whether it is open and what the transport
/// reported, to whether it stays open and what to do.
///
/// A closed session only ever closes. An open one answers the exit command
/// with `BYE` and closes, answers the stop command with `STOPPING SERVER`,
/// asks the server to stop and closes, answers any other line with its
/// characters reversed, shrugs off decode and send failures, and closes at
/// the end of the stream.
pub open spec fn session_step(open: bool, ev: EventModel) -> (bool, ActionModel) {
    if !open {
        (false, ActionModel::Close)
    } else {
        match ev {
            EventModel::Line(l) => {
                if l == exit_command() {
                    (false, ActionModel::ReplyAndClose(bye_reply()))
                } else if l == stop_command() {
                    (false, ActionModel::StopServer(stopping_reply()))
                } else {
                    (true, ActionModel::Reply(reversed(l)))
                }
            },
            EventModel::DecodeFailed => (true, ActionModel::Continue),
            EventModel::SendFailed => (true, ActionModel::Continue),
            EventModel::EndOfStream => (false, ActionModel::Close),
        }
    }
}

/// A session fed the events `evs` in order, starting open or closed: whether
/// it is open at the end, and the actions it asked for, one per event.
pub open spec fn session_run(open: bool, evs: Seq<EventModel>) -> (bool, Seq<ActionModel>)
    decreases evs.len(),
{
    if evs.len() == 0 {
        (open, Seq::empty())
    } else {
        let (next, a) = session_step(open, evs[0]);
        let (last, rest) = session_run(next, evs.drop_first());
        (last, seq![a] + rest)
    }
}

/// A line that is not a command is answered with its characters reversed,
/// and the session stays open; sending that answer back, when it is not a
/// command either, is answered with the original line.
pub proof fn lemma_reply_round_trip(s: Seq<char>)
    requires
        !is_command(s),
        !is_command(reversed(s)),
    ensures
        session_step(true, EventModel::Line(s)) == (true, ActionModel::Reply(reversed(s))),
        session_step(true, EventModel::Line(reversed(s))) == (true, ActionModel::Reply(s)),
{
    lemma_reversed_twice(s);
}

/// An open session fed lines that are not commands stays open and answers
/// each of them, in the order they came, with its characters reversed.
pub proof fn lemma_lines_answered_in_order(lines: Seq<Seq<char>>)
    requires
        forall|i: int| 0 <= i < lines.len() ==> !is_command(#[trigger] lines[i]),
    ensures
        session_run(true, lines.map_values(|l: Seq<char>| EventModel::Line(l))) == (
        true,
        lines.map_values(|l: Seq<char>| ActionModel::Reply(reversed(l))),
        ),
    decreases lines.len(),
{
    let evs = lines.map_values(|l: Seq<char>| EventModel::Line(l));
    let acts = lines.map_values(|l: Seq<char>| ActionModel::Reply(reversed(l)));
    if lines.len() > 0 {
        let tail = lines.drop_first();
        assert forall|i: int| 0 <= i < tail.len() implies !is_command(#[trigger] tail[i]) by {
            assert(tail[i] == lines[i + 1]);
        }
        lemma_lines_answered_in_order(tail);
        assert(evs.drop_first() =~= tail.map_values(|l: Seq<char>| EventModel::Line(l)));
        assert(acts =~= seq![ActionModel::Reply(reversed(lines[0]))] + tail.map_values(
            |l: Seq<char>| ActionModel::Reply(reversed(l)),
        ));
    } else {
        assert(acts =~= Seq::empty());
    }
}

/// A closed session answers every later event by closing, and stays closed.
pub proof fn lemma_closed_stays_closed(evs: Seq<EventModel>)
    ensures
        session_run(false, evs) == (false, Seq::new(evs.len(), |i: int| ActionModel::Close)),
    decreases evs.len(),
{
    if evs.len() > 0 {
        lemma_closed_stays_closed(evs.drop_first());
        assert(Seq::new(evs.len(), |i: int| ActionModel::Close) =~= seq![ActionModel::Close]
            + Seq::new(evs.drop_first().len(), |i: int| ActionModel::Close));
    } else {
        assert(Seq::new(evs.len(), |i: int| ActionModel::Close) =~= Seq::empty());
    }
}

/// The exit command on an open session is answered with `BYE`, and the
/// session is closed: whatever the transport reports afterwards, nothing
/// more is read or sent.
pub proof fn lemma_exit_closes(evs: Seq<EventModel>)
    ensures
        session_run(true, seq![EventModel::Line(exit_command())] + evs) == (
        false,
        seq![ActionModel::ReplyAndClose(bye_reply())] + Seq::new(
            evs.len(),
            |i: int| ActionModel::Close,
        ),
        ),
{
    let all = seq![EventModel::Line(exit_command())] + evs;
    assert(all.drop_first() =~= evs);
    lemma_closed_stays_closed(evs);
}

/// A decode failure on an open session sends nothing and leaves it as it
/// was: the events that follow are handled exactly as if it had not come.
pub proof fn lemma_decode_failure_harmless(evs: Seq<EventModel>)
    ensures
        session_run(true, seq![EventModel::DecodeFailed] + evs) == (
        session_run(true, evs).0,
        seq![ActionModel::Continue] + session_run(true, evs).1,
        ),
{
    let all = seq![EventModel::DecodeFailed] + evs;
    assert(all.drop_first() =~= evs);
}

/// The state of one connection's session.
pub struct Session {
    pub open: bool,
}

impl Session {
    /// A session for a freshly accepted connection.
    pub fn new() -> (s: Session)
        ensures
            s.open,
    {
        Session { open: true }
    }

    /// Whether the connection is still to be read from.
    pub fn is_open(&self) -> (r: bool)
        ensures
            r == self.open,
    {
        self.open
    }

    /// Reacts to one report of the transport.
    pub fn step(&mut self, ev: SessionEvent) -> (a: SessionAction)
        ensures
            (final(self).open, a@) == session_step(old(self).open, ev@),
    {
        if !self.open {
            return SessionAction::Close;
        }
        match ev {
            SessionEvent::Line(line) => {
                match handle_line(line.as_str()) {
                    Outcome::CloseConnection => {
                        self.open = false;
                        SessionAction::ReplyAndClose(bye_text())
                    },
                    Outcome::ShutdownServer => {
                        self.open = false;
                        SessionAction::StopServer(stopping_text())
                    },
                    Outcome::Reply(t) => SessionAction::Reply(t),
                }
            },
            SessionEvent::DecodeFailed => SessionAction::Continue,
            SessionEvent::SendFailed => SessionAction::Continue,
            SessionEvent::EndOfStream => {
                self.open = false;
                SessionAction::Close
            },
        }
    }
}

} // verus!
