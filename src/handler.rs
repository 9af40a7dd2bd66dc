//! The message handler: a pure function from one received line to what the
//! session should do with it.
use vstd::prelude::*;

verus! {

/// The line that closes the connection it arrives on.
pub open spec fn exit_command() -> Seq<char> {
    seq!['E', 'X', 'I', 'T']
}

/// The line that closes its connection and stops the whole server.
pub open spec fn stop_command() -> Seq<char> {
    seq!['S', 'T', 'O', 'P']
}

/// The acknowledgement sent for the exit command.
pub open spec fn bye_reply() -> Seq<char> {
    seq!['B', 'Y', 'E']
}

/// The acknowledgement sent for the stop command.
pub open spec fn stopping_reply() -> Seq<char> {
    seq!['S', 'T', 'O', 'P', 'P', 'I', 'N', 'G', ' ', 'S', 'E', 'R', 'V', 'E', 'R']
}

/// Whether a line is one of the two reserved commands (exact, case-sensitive).
pub open spec fn is_command(line: Seq<char>) -> bool {
    line == exit_command() || line == stop_command()
}

/// The characters of `s` in the opposite order.
pub open spec fn reversed(s: Seq<char>) -> Seq<char> {
    Seq::new(s.len(), |i: int| s[s.len() - 1 - i])
}

/// Reversing a sequence of characters twice gives it back.
pub proof fn lemma_reversed_twice(s: Seq<char>)
    ensures
        reversed(s).len() == s.len(),
        reversed(reversed(s)) == s,
{
    assert(reversed(reversed(s)) =~= s);
}

/// What one received line asks of the session.
#[derive(Debug, PartialEq, Eq)]
pub enum Outcome {
    /// Send this text back and keep the connection.
    Reply(String),
    /// The exit command: acknowledge and close this connection only.
    CloseConnection,
    /// The stop command: acknowledge, close, and ask the server to stop.
    ShutdownServer,
}

/// Relies on `String::push`: the character is appended at the end.
#[verifier::external_body]
fn push_char(s: &mut String, c: char)
    ensures
        final(s)@ == old(s)@.push(c),
{
    s.push(c)
}

/// The characters of `line`, one by one.
fn chars_of(line: &str) -> (cs: Vec<char>)
    ensures
        cs@ == line@,
{
    let mut cs: Vec<char> = Vec::new();
    for c in it: line.chars()
        invariant
            it.seq() == line@,
            cs@ == it.seq().take(it.index() as int),
    {
        cs.push(c);
    }
    cs
}

/// A string holding the characters of `cs`, last first.
fn string_reversed(cs: &Vec<char>) -> (r: String)
    ensures
        r@ == reversed(cs@),
{
    let mut out = String::new();
    let mut i: usize = cs.len();
    while i > 0
        invariant
            i <= cs.len(),
            out@ == reversed(cs@).take(cs.len() - i),
        decreases i,
    {
        i = i - 1;
        push_char(&mut out, cs[i]);
    }
    assert(out@ =~= reversed(cs@));
    out
}

/// A string holding exactly the characters of `cs`.
fn string_of(cs: &[char]) -> (r: String)
    ensures
        r@ == cs@,
{
    let mut out = String::new();
    let mut i: usize = 0;
    while i < cs.len()
        invariant
            i <= cs.len(),
            out@ == cs@.take(i as int),
        decreases cs.len() - i,
    {
        push_char(&mut out, cs[i]);
        i = i + 1;
        assert(out@ =~= cs@.take(i as int));
    }
    assert(out@ =~= cs@);
    out
}

/// Whether `cs` holds exactly the characters of `word`.
fn same_chars(cs: &Vec<char>, word: &[char]) -> (r: bool)
    ensures
        r == (cs@ == word@),
{
    if cs.len() != word.len() {
        return false;
    }
    let mut i: usize = 0;
    while i < cs.len()
        invariant
            i <= cs.len(),
            cs.len() == word.len(),
            forall|j: int| 0 <= j < i ==> cs@[j] == word@[j],
        decreases cs.len() - i,
    {
        if cs[i] != word[i] {
            return false;
        }
        i = i + 1;
    }
    assert(cs@ =~= word@);
    true
}

/// The characters of `line` in the opposite order: the transform applied to
/// every line that is not a command.
pub fn reverse_chars(line: &str) -> (r: String)
    ensures
        r@ == reversed(line@),
{
    string_reversed(&chars_of(line))
}

/// Classifies one received line: the exit command, the stop command, or a
/// line answered with its characters reversed.
pub fn handle_line(line: &str) -> (r: Outcome)
    ensures
        line@ == exit_command() ==> r is CloseConnection,
        line@ == stop_command() ==> r is ShutdownServer,
        !is_command(line@) ==> (r matches Outcome::Reply(t) && t@ == reversed(line@)),
{
    let cs = chars_of(line);
    let exit: [char; 4] = ['E', 'X', 'I', 'T'];
    let stop: [char; 4] = ['S', 'T', 'O', 'P'];
    if same_chars(&cs, &exit) {
        assert(exit@ =~= exit_command());
        Outcome::CloseConnection
    } else if same_chars(&cs, &stop) {
        assert(stop@ =~= stop_command());
        Outcome::ShutdownServer
    } else {
        assert(exit@ =~= exit_command());
        assert(stop@ =~= stop_command());
        Outcome::Reply(string_reversed(&cs))
    }
}

/// The text sent to acknowledge the exit command.
pub fn bye_text() -> (r: String)
    ensures
        r@ == bye_reply(),
{
    let t: [char; 3] = ['B', 'Y', 'E'];
    assert(t@ =~= bye_reply());
    string_of(&t)
}

/// The text sent to acknowledge the stop command.
pub fn stopping_text() -> (r: String)
    ensures
        r@ == stopping_reply(),
{
    let t: [char; 15] = ['S', 'T', 'O', 'P', 'P', 'I', 'N', 'G', ' ', 'S', 'E', 'R', 'V', 'E', 'R'];
    assert(t@ =~= stopping_reply());
    string_of(&t)
}

} // verus!
