//! The listen loop: bind once, then accept and serve one connection at a time
//! until accepting fails.
//!
//! `Server` decides; the caller binds, accepts and serves, and reports each
//! result as an `Event`.

use crate::session::{Fault, Input, Session};
use crate::startup::{plan_for, usage_text, Plan, Startup};
use vstd::prelude::*;

verus! {

/// How the process ends.
#[derive(Clone, Copy, Debug, PartialEq, Eq, Structural)]
pub enum ExitStatus {
    Success,
    Failure,
}

/// Where the server stands.
#[derive(Clone, Copy, Debug, PartialEq, Eq, Structural)]
pub enum State {
    /// No socket yet.
    Unbound,
    /// The listening socket is bound; no connection has been awaited yet.
    Bound,
    /// Waiting for the next connection.
    Accepting,
    /// Serving the one live connection.
    Serving,
    /// Done, with the status to leave with.
    Terminated(ExitStatus),
}

/// What the caller is to do next.
#[derive(Clone, Copy, Debug, PartialEq, Eq, Structural)]
pub enum Action {
    /// Bind the listening socket.
    Bind,
    /// Make known that the server listens.
    Announce,
    /// Wait for a connection.
    Accept,
    /// Serve the accepted connection until it is over.
    Serve,
    /// Leave with this status.
    Exit(ExitStatus),
}

/// What the caller reports back.
#[derive(Clone, Copy, Debug)]
pub enum Event {
    /// The socket is bound.
    BindSucceeded,
    /// The socket could not be bound.
    BindFailed,
    /// The announcement was made.
    Announced,
    /// A connection arrived.
    Accepted,
    /// Waiting for a connection failed.
    AcceptFailed,
    /// The connection is over, with how it ended.
    Served(Result<(), Fault>),
}

/// The model of the server: its state and how many connections it has taken
/// on and seen through.
pub struct Service {
    pub state: State,
    /// Connections accepted so far.
    pub accepted: nat,
    /// Connections that are over.
    pub finished: nat,
}

impl Service {
    /// The server at startup: unbound when it is to listen, already terminated
    /// with success when it is not.
    pub open spec fn start(plan: Plan) -> Service {
        Service {
            state: if plan is Listen {
                State::Unbound
            } else {
                State::Terminated(ExitStatus::Success)
            },
            accepted: 0,
            finished: 0,
        }
    }

    /// The number of connections that are live.
    pub open spec fn live(self) -> int {
        self.accepted - self.finished
    }

    /// What holds of every server: one connection is live while it serves, and
    /// none otherwise.
    pub open spec fn valid(self) -> bool {
        self.live() == if self.state is Serving {
            1int
        } else {
            0int
        }
    }

    /// What the caller is to do in this state.
    pub open spec fn action(self) -> Action {
        match self.state {
            State::Unbound => Action::Bind,
            State::Bound => Action::Announce,
            State::Accepting => Action::Accept,
            State::Serving => Action::Serve,
            State::Terminated(status) => Action::Exit(status),
        }
    }

    /// The server after `event`.
    ///
    /// A failure to bind or to accept terminates it with failure. The end of a
    /// connection, good or bad, sends it back to accepting. An event that does
    /// not report on the action of its state changes nothing.
    pub open spec fn step(self, event: Event) -> Service {
        match (self.state, event) {
            (State::Unbound, Event::BindSucceeded) => Service { state: State::Bound, ..self },
            (State::Unbound, Event::BindFailed) => Service {
                state: State::Terminated(ExitStatus::Failure),
                ..self
            },
            (State::Bound, Event::Announced) => Service { state: State::Accepting, ..self },
            (State::Accepting, Event::Accepted) => Service {
                state: State::Serving,
                accepted: self.accepted + 1,
                ..self
            },
            (State::Accepting, Event::AcceptFailed) => Service {
                state: State::Terminated(ExitStatus::Failure),
                ..self
            },
            (State::Serving, Event::Served(_)) => Service {
                state: State::Accepting,
                finished: self.finished + 1,
                ..self
            },
            _ => self,
        }
    }

    /// The server after all of `events`, in order.
    pub open spec fn run(self, events: Seq<Event>) -> Service
        decreases events.len(),
    {
        if events.len() == 0 {
            self
        } else {
            self.run(events.drop_last()).step(events.last())
        }
    }

    /// The server is valid at startup.
    pub proof fn lemma_start_valid(plan: Plan)
        ensures
            Service::start(plan).valid(),
    {
    }

    /// No event makes a valid server invalid.
    pub proof fn lemma_step_valid(self, event: Event)
        requires
            self.valid(),
        ensures
            self.step(event).valid(),
    {
    }

    /// A terminated server stays terminated, with the same status.
    pub proof fn lemma_terminated_is_final(self, events: Seq<Event>)
        requires
            self.state is Terminated,
        ensures
            self.run(events) == self,
        decreases events.len(),
    {
        if events.len() > 0 {
            self.lemma_terminated_is_final(events.drop_last());
        }
    }

    /// Serial service. Whatever the events, at most one connection is live, one
    /// is live exactly while the server serves, and the server asks for the next
    /// connection only when none is.
    pub proof fn lemma_serial_service(self, events: Seq<Event>)
        requires
            self.valid(),
        ensures
            self.run(events).valid(),
            0 <= self.run(events).live() <= 1,
            self.run(events).live() == 1 <==> self.run(events).state is Serving,
            self.run(events).action() is Accept ==> self.run(events).live() == 0,
        decreases events.len(),
    {
        if events.len() > 0 {
            self.lemma_serial_service(events.drop_last());
            self.run(events.drop_last()).lemma_step_valid(events.last());
        }
    }

    /// While the server serves, nothing but the end of that connection moves it
    /// on: a connection that arrives meanwhile is not taken on, and a failure
    /// to accept is not acted on.
    pub proof fn lemma_serving_waits(self, event: Event)
        requires
            self.state is Serving,
            !(event is Served),
        ensures
            self.step(event) == self,
            self.step(event).action() is Serve,
    {
    }

    /// The end of a connection never ends the server. However the connection
    /// ended, a server that was serving goes back to accepting.
    pub proof fn lemma_served_returns_to_accepting(self, result: Result<(), Fault>)
        requires
            self.state is Serving,
        ensures
            self.step(Event::Served(result)).state is Accepting,
            self.step(Event::Served(result)).action() is Accept,
    {
    }

    /// Orderly close. When the peer shuts down a session that awaits a read,
    /// the session ends without error and with every byte echoed, and the
    /// server that was serving it asks for the next connection.
    pub proof fn lemma_close_returns_to_accepting(self, session: Session)
        requires
            self.state is Serving,
            session.valid(),
            session.phase is Reading,
        ensures
            session.step(Input::Read(Seq::empty())).outcome() == Some(Ok::<(), Fault>(())),
            session.step(Input::Read(Seq::empty())).echoed == session.received,
            self.step(Event::Served(Ok(()))).action() is Accept,
    {
    }

    /// Bad arguments. With any number of arguments but two, the plan is the
    /// usage line, and the server is terminated with success from the start:
    /// whatever is reported to it, it never asks to bind.
    pub proof fn lemma_bad_arguments(args: Seq<Seq<char>>, events: Seq<Event>)
        requires
            args.len() != 3,
        ensures
            plan_for(args) == Plan::Usage(usage_text(args[0])),
            Service::start(plan_for(args)).run(events).action() == Action::Exit(
                ExitStatus::Success,
            ),
    {
        Service::start(plan_for(args)).lemma_terminated_is_final(events);
    }

    /// Bind failure. A server that cannot bind terminates with failure at once
    /// and for good: it neither binds again nor accepts.
    pub proof fn lemma_bind_failure_is_final(self, events: Seq<Event>)
        requires
            self.state is Unbound,
        ensures
            self.step(Event::BindFailed).run(events).action() == Action::Exit(
                ExitStatus::Failure,
            ),
    {
        self.step(Event::BindFailed).lemma_terminated_is_final(events);
    }
}

impl ExitStatus {
    /// The process exit code: 0 for success, 1 for failure.
    pub fn code(self) -> (code: i32)
        ensures
            code == if self is Success {
                0i32
            } else {
                1i32
            },
    {
        match self {
            ExitStatus::Success => 0,
            ExitStatus::Failure => 1,
        }
    }
}

/// The listen loop's decisions. Its view is the `Service` it has given so far.
pub struct Server {
    state: State,
    accepted: Ghost<nat>,
    finished: Ghost<nat>,
}

impl View for Server {
    type V = Service;

    closed spec fn view(&self) -> Service {
        Service { state: self.state, accepted: self.accepted@, finished: self.finished@ }
    }
}

impl Server {
    /// The server at startup, for the plan that the command line gave.
    pub fn new(plan: &Startup) -> (server: Server)
        ensures
            server@ == Service::start(plan@),
            server@.valid(),
    {
        let state = match plan {
            Startup::Listen(_) => State::Unbound,
            Startup::Usage(_) => State::Terminated(ExitStatus::Success),
        };
        Server { state, accepted: Ghost(0), finished: Ghost(0) }
    }

    /// Where the server stands.
    pub fn state(&self) -> (state: State)
        ensures
            state == self@.state,
    {
        self.state
    }

    /// What the caller is to do next.
    pub fn action(&self) -> (action: Action)
        ensures
            action == self@.action(),
    {
        match self.state {
            State::Unbound => Action::Bind,
            State::Bound => Action::Announce,
            State::Accepting => Action::Accept,
            State::Serving => Action::Serve,
            State::Terminated(status) => Action::Exit(status),
        }
    }

    /// Takes in what the caller reports and returns what it is to do next.
    pub fn handle(&mut self, event: Event) -> (action: Action)
        ensures
            final(self)@ == old(self)@.step(event),
            old(self)@.valid() ==> final(self)@.valid(),
            action == final(self)@.action(),
    {
        match self.state {
            State::Unbound => match event {
                Event::BindSucceeded => {
                    self.state = State::Bound;
                },
                Event::BindFailed => {
                    self.state = State::Terminated(ExitStatus::Failure);
                },
                _ => {},
            },
            State::Bound => match event {
                Event::Announced => {
                    self.state = State::Accepting;
                },
                _ => {},
            },
            State::Accepting => match event {
                Event::Accepted => {
                    self.state = State::Serving;
                    self.accepted = Ghost(self.accepted@ + 1);
                },
                Event::AcceptFailed => {
                    self.state = State::Terminated(ExitStatus::Failure);
                },
                _ => {},
            },
            State::Serving => match event {
                Event::Served(_) => {
                    self.state = State::Accepting;
                    self.finished = Ghost(self.finished@ + 1);
                },
                _ => {},
            },
            State::Terminated(_) => {},
        }
        self.action()
    }
}

} // verus!
