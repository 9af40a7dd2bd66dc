use line_server::handler::{bye_text, handle_line, reverse_chars, stopping_text, Outcome};
use line_server::listener::{Listener, ListenerAction, ListenerEvent};
use line_server::session::{Session, SessionAction, SessionEvent};

fn line(s: &str) -> SessionEvent {
    SessionEvent::Line(s.to_string())
}

fn reply(s: &str) -> SessionAction {
    SessionAction::Reply(s.to_string())
}

#[test]
fn reverses_ascii_line() {
    assert_eq!(reverse_chars("hello"), "olleh");
    assert_eq!(reverse_chars("ab"), "ba");
}

#[test]
fn reverses_unicode_by_character() {
    assert_eq!(reverse_chars("añb€"), "€bña");
    assert_eq!(reverse_chars("日本語"), "語本日");
}

#[test]
fn empty_line_reverses_to_itself() {
    assert_eq!(reverse_chars(""), "");
    assert_eq!(handle_line(""), Outcome::Reply(String::new()));
    let mut s = Session::new();
    assert_eq!(s.step(line("")), reply(""));
    assert!(s.is_open());
}

#[test]
fn reversing_twice_gives_the_line_back() {
    for text in ["hello world", "x", "añb€", "racecar", "exit"] {
        let once = match handle_line(text) {
            Outcome::Reply(t) => t,
            other => panic!("unexpected outcome {:?}", other),
        };
        let twice = match handle_line(&once) {
            Outcome::Reply(t) => t,
            other => panic!("unexpected outcome {:?}", other),
        };
        assert_eq!(twice, text);
    }
}

#[test]
fn commands_are_exact_and_case_sensitive() {
    assert_eq!(handle_line("EXIT"), Outcome::CloseConnection);
    assert_eq!(handle_line("STOP"), Outcome::ShutdownServer);
    assert_eq!(handle_line("exit"), Outcome::Reply("tixe".to_string()));
    assert_eq!(handle_line("Stop"), Outcome::Reply("potS".to_string()));
    assert_eq!(handle_line("EXIT "), Outcome::Reply(" TIXE".to_string()));
    assert_eq!(handle_line("STOPS"), Outcome::Reply("SPOTS".to_string()));
    assert_eq!(handle_line("TIXE"), Outcome::Reply("EXIT".to_string()));
}

#[test]
fn acknowledgement_texts() {
    assert_eq!(bye_text(), "BYE");
    assert_eq!(stopping_text(), "STOPPING SERVER");
}

#[test]
fn exit_says_bye_and_closes() {
    let mut s = Session::new();
    assert_eq!(s.step(line("hi")), reply("ih"));
    assert_eq!(s.step(line("EXIT")), SessionAction::ReplyAndClose("BYE".to_string()));
    assert!(!s.is_open());
    assert_eq!(s.step(line("more")), SessionAction::Close);
    assert_eq!(s.step(SessionEvent::EndOfStream), SessionAction::Close);
    assert!(!s.is_open());
}

#[test]
fn stop_on_one_connection_stops_accepting_only() {
    let mut listener = Listener::new();
    let mut sessions: Vec<Session> = Vec::new();
    for _ in 0..3 {
        assert_eq!(listener.step(ListenerEvent::Accepted), ListenerAction::SpawnSession);
        sessions.push(Session::new());
    }
    assert_eq!(
        sessions[1].step(line("STOP")),
        SessionAction::StopServer("STOPPING SERVER".to_string())
    );
    assert!(!sessions[1].is_open());
    assert_eq!(listener.step(ListenerEvent::ShutdownSignalled), ListenerAction::Exit);
    assert!(!listener.is_running());
    assert_eq!(listener.step(ListenerEvent::Accepted), ListenerAction::Exit);
    assert_eq!(listener.step(ListenerEvent::ShutdownSignalled), ListenerAction::Exit);
    assert_eq!(sessions[0].step(line("still here")), reply("ereh llits"));
    assert_eq!(sessions[2].step(line("me too")), reply("oot em"));
    assert!(sessions[0].is_open());
    assert!(sessions[2].is_open());
    assert_eq!(sessions[2].step(line("EXIT")), SessionAction::ReplyAndClose("BYE".to_string()));
    assert!(sessions[0].is_open());
}

#[test]
fn interleaved_connections_keep_their_own_order() {
    let mut a = Session::new();
    let mut b = Session::new();
    let from_a = ["a1", "a2", "a3"];
    let from_b = ["b1", "b2", "b3"];
    let mut got_a: Vec<SessionAction> = Vec::new();
    let mut got_b: Vec<SessionAction> = Vec::new();
    for i in 0..3 {
        got_a.push(a.step(line(from_a[i])));
        got_b.push(b.step(line(from_b[i])));
    }
    assert_eq!(got_a, vec![reply("1a"), reply("2a"), reply("3a")]);
    assert_eq!(got_b, vec![reply("1b"), reply("2b"), reply("3b")]);
}

#[test]
fn decode_failure_keeps_connection() {
    let mut s = Session::new();
    assert_eq!(s.step(SessionEvent::DecodeFailed), SessionAction::Continue);
    assert!(s.is_open());
    assert_eq!(s.step(line("valid")), reply("dilav"));
    assert!(s.is_open());
}

#[test]
fn send_failure_keeps_connection() {
    let mut s = Session::new();
    assert_eq!(s.step(SessionEvent::SendFailed), SessionAction::Continue);
    assert!(s.is_open());
    assert_eq!(s.step(line("abc")), reply("cba"));
}

#[test]
fn end_of_stream_closes() {
    let mut s = Session::new();
    assert_eq!(s.step(SessionEvent::EndOfStream), SessionAction::Close);
    assert!(!s.is_open());
    assert_eq!(s.step(line("late")), SessionAction::Close);
}

#[test]
fn accept_failure_keeps_listening() {
    let mut l = Listener::new();
    assert!(l.is_running());
    assert_eq!(l.step(ListenerEvent::AcceptFailed), ListenerAction::Continue);
    assert!(l.is_running());
    assert_eq!(l.step(ListenerEvent::Accepted), ListenerAction::SpawnSession);
    assert!(l.is_running());
}
