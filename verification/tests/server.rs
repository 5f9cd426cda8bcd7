use echo_server::connection::{Completion, Connection};
use echo_server::server::{Action, Event, ExitStatus, Server, State};
use echo_server::session::{Fault, Phase};
use echo_server::startup::{startup, Startup};

fn listening() -> Server {
    let mut server = Server::new(&Startup::Listen(String::from("127.0.0.1:7")));
    assert_eq!(server.handle(Event::BindSucceeded), Action::Announce);
    assert_eq!(server.handle(Event::Announced), Action::Accept);
    server
}

fn args(words: &[&str]) -> Vec<String> {
    words.iter().map(|word| word.to_string()).collect()
}

#[test]
fn a_server_that_is_to_listen_starts_unbound() {
    let server = Server::new(&Startup::Listen(String::from("127.0.0.1:7")));
    assert_eq!(server.state(), State::Unbound);
    assert_eq!(server.action(), Action::Bind);
}

#[test]
fn the_states_follow_one_another() {
    let mut server = Server::new(&Startup::Listen(String::from("127.0.0.1:7")));
    assert_eq!(server.handle(Event::BindSucceeded), Action::Announce);
    assert_eq!(server.state(), State::Bound);
    assert_eq!(server.handle(Event::Announced), Action::Accept);
    assert_eq!(server.state(), State::Accepting);
    assert_eq!(server.handle(Event::Accepted), Action::Serve);
    assert_eq!(server.state(), State::Serving);
    assert_eq!(server.handle(Event::Served(Ok(()))), Action::Accept);
    assert_eq!(server.state(), State::Accepting);
    assert_eq!(server.handle(Event::Accepted), Action::Serve);
    assert_eq!(server.handle(Event::Served(Ok(()))), Action::Accept);
    assert_eq!(server.handle(Event::AcceptFailed), Action::Exit(ExitStatus::Failure));
    assert_eq!(server.state(), State::Terminated(ExitStatus::Failure));
}

#[test]
fn bad_arguments_exit_with_success_and_never_bind() {
    for words in [
        &["echo"][..],
        &["echo", "127.0.0.1"][..],
        &["echo", "127.0.0.1", "7", "extra"][..],
        &["echo", "a", "b", "c", "d"][..],
    ] {
        let plan = startup(&args(words));
        let mut server = Server::new(&plan);
        assert_eq!(server.state(), State::Terminated(ExitStatus::Success));
        assert_eq!(server.action(), Action::Exit(ExitStatus::Success));
        assert_eq!(server.handle(Event::BindSucceeded), Action::Exit(ExitStatus::Success));
        assert_eq!(server.handle(Event::Accepted), Action::Exit(ExitStatus::Success));
    }
}

#[test]
fn two_arguments_lead_to_a_bind() {
    let plan = startup(&args(&["echo", "127.0.0.1", "7"]));
    assert_eq!(Server::new(&plan).action(), Action::Bind);
}

#[test]
fn a_failed_bind_exits_with_failure_for_good() {
    let mut server = Server::new(&Startup::Listen(String::from("127.0.0.1:7")));
    assert_eq!(server.handle(Event::BindFailed), Action::Exit(ExitStatus::Failure));
    assert_eq!(server.handle(Event::BindSucceeded), Action::Exit(ExitStatus::Failure));
    assert_eq!(server.handle(Event::Accepted), Action::Exit(ExitStatus::Failure));
    assert_eq!(server.state(), State::Terminated(ExitStatus::Failure));
}

#[test]
fn a_failed_accept_exits_with_failure() {
    let mut server = listening();
    assert_eq!(server.handle(Event::AcceptFailed), Action::Exit(ExitStatus::Failure));
    assert_eq!(server.handle(Event::Accepted), Action::Exit(ExitStatus::Failure));
}

#[test]
fn a_failed_connection_does_not_stop_the_server() {
    for fault in [Fault::Read, Fault::Write, Fault::WriteZero] {
        let mut server = listening();
        assert_eq!(server.handle(Event::Accepted), Action::Serve);
        assert_eq!(server.handle(Event::Served(Err(fault))), Action::Accept);
        assert_eq!(server.state(), State::Accepting);
        assert_eq!(server.handle(Event::Accepted), Action::Serve);
    }
}

#[test]
fn no_connection_is_accepted_while_one_is_served() {
    let mut server = listening();
    assert_eq!(server.handle(Event::Accepted), Action::Serve);
    assert_eq!(server.handle(Event::Accepted), Action::Serve);
    assert_eq!(server.handle(Event::AcceptFailed), Action::Serve);
    assert_eq!(server.state(), State::Serving);
    assert_eq!(server.handle(Event::Served(Ok(()))), Action::Accept);
}

#[test]
fn a_client_that_closes_sends_the_server_back_to_accepting() {
    let mut server = listening();
    assert_eq!(server.handle(Event::Accepted), Action::Serve);
    let mut connection = Connection::new();
    assert_eq!(connection.handle(Completion::Read(0)), Phase::Closed);
    let result = connection.outcome().expect("the session is over");
    assert_eq!(result, Ok(()));
    assert_eq!(server.handle(Event::Served(result)), Action::Accept);
    assert_eq!(server.state(), State::Accepting);
}

#[test]
fn an_event_out_of_turn_changes_nothing() {
    let mut server = Server::new(&Startup::Listen(String::from("127.0.0.1:7")));
    assert_eq!(server.handle(Event::Accepted), Action::Bind);
    assert_eq!(server.handle(Event::Announced), Action::Bind);
    assert_eq!(server.handle(Event::Served(Ok(()))), Action::Bind);
    assert_eq!(server.handle(Event::BindSucceeded), Action::Announce);
    assert_eq!(server.handle(Event::BindFailed), Action::Announce);
    assert_eq!(server.handle(Event::Accepted), Action::Announce);
    assert_eq!(server.handle(Event::Announced), Action::Accept);
    assert_eq!(server.handle(Event::Served(Ok(()))), Action::Accept);
    assert_eq!(server.handle(Event::BindFailed), Action::Accept);
}

#[test]
fn exit_codes() {
    assert_eq!(ExitStatus::Success.code(), 0);
    assert_eq!(ExitStatus::Failure.code(), 1);
}
