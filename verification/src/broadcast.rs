//! The broadcaster: a run of polls as a state machine. The machine decides
//! what is done next; whoever drives it binds, sends and sleeps, and reports
//! back how it went.

use vstd::prelude::*;
use crate::addr::SocketAddress;
use crate::error::ArtNetError;
use crate::packet::{artpoll_bytes, ArtPoll, PriorityCodes, ARTPOLL_UDP_PORT};

verus! {

/// How many polls a run sends.
#[derive(Clone, Copy, Debug, PartialEq, Eq, Structural)]
pub enum Repeat {
    /// This many, then the run is done.
    Times(u64),
    /// Without end.
    Forever,
}

/// Where a run stands.
#[derive(Clone, Copy, Debug, PartialEq, Eq, Structural)]
pub enum RunState {
    /// Not started.
    Idle,
    /// Waiting for the socket to be bound and set up.
    Binding,
    /// Waiting for a datagram to go out.
    Broadcasting,
    /// Waiting for the interval between two polls to pass.
    Sleeping,
    /// All polls were sent.
    Done,
    /// The run was given up for this reason.
    Failed(ArtNetError),
}

/// What the driver reports to the machine.
#[derive(Clone, Copy, Debug, PartialEq, Eq, Structural)]
pub enum Event {
    /// The run is to begin.
    Start,
    /// The socket is bound and its options are set.
    SocketReady,
    /// Binding the socket or setting an option failed.
    SocketFailed,
    /// The datagram went out.
    Sent,
    /// The datagram could not be sent.
    SendFailed,
    /// The interval has passed.
    Woke,
}

/// What the machine asks the driver to do next.
#[derive(Clone, Copy, Debug)]
pub enum Action {
    /// Bind a UDP socket to `local` and set the two options.
    Bind { local: SocketAddress, broadcast: bool, multicast_loop: bool },
    /// Send `payload` to `target` on the socket.
    Send { target: SocketAddress, payload: [u8; 14] },
    /// Wait for this many milliseconds.
    Sleep { millis: u64 },
    /// Close the socket: the run is complete.
    Finish,
    /// Close the socket and report the error: the run is given up.
    Fail { error: ArtNetError },
    /// Nothing: the event does not belong to the state the run is in.
    Nothing,
}

/// The value of an `Action`.
pub enum ActionView {
    Bind { local: SocketAddress, broadcast: bool, multicast_loop: bool },
    Send { target: SocketAddress, payload: Seq<u8> },
    Sleep { millis: u64 },
    Finish,
    Fail { error: ArtNetError },
    Nothing,
}

impl View for Action {
    type V = ActionView;

    open spec fn view(&self) -> ActionView {
        match *self {
            Action::Bind { local, broadcast, multicast_loop } => ActionView::Bind {
                local,
                broadcast,
                multicast_loop,
            },
            Action::Send { target, payload } => ActionView::Send { target, payload: payload@ },
            Action::Sleep { millis } => ActionView::Sleep { millis },
            Action::Finish => ActionView::Finish,
            Action::Fail { error } => ActionView::Fail { error },
            Action::Nothing => ActionView::Nothing,
        }
    }
}

/// A run of polls: who polls, how long the pause between two polls is, how
/// many polls are still to be sent, and where the run stands.
#[derive(Clone, Copy, Debug, PartialEq, Eq, Structural)]
pub struct Broadcaster {
    pub poller: ArtPoll,
    pub interval_millis: u64,
    pub left: Repeat,
    pub state: RunState,
}

impl Broadcaster {
    /// The request to bind the run's socket.
    pub open spec fn bind_action(self) -> ActionView {
        ActionView::Bind {
            local: SocketAddress { ip: self.poller.broadcast_addr, port: ARTPOLL_UDP_PORT },
            broadcast: true,
            multicast_loop: false,
        }
    }

    /// The request to send one low-priority poll to the poller's endpoint.
    pub open spec fn send_action(self) -> ActionView {
        ActionView::Send {
            target: self.poller.poll_addr,
            payload: artpoll_bytes(PriorityCodes::DpLow),
        }
    }

    /// The run after an event, and what the driver is asked to do.
    ///
    /// A run starts by binding, unless no poll is asked for. Once the socket
    /// is ready a poll is sent. After each poll that went out the run is done
    /// if that was the last one, and else sleeps and then sends the next. A
    /// failure to bind or to send ends the run. An event that does not belong
    /// to the state changes nothing.
    pub open spec fn spec_step(self, event: Event) -> (Broadcaster, ActionView) {
        match (self.state, event) {
            (RunState::Idle, Event::Start) => if self.left == Repeat::Times(0) {
                (Broadcaster { state: RunState::Done, ..self }, ActionView::Finish)
            } else {
                (Broadcaster { state: RunState::Binding, ..self }, self.bind_action())
            },
            (RunState::Binding, Event::SocketReady) => (
                Broadcaster { state: RunState::Broadcasting, ..self },
                self.send_action(),
            ),
            (RunState::Binding, Event::SocketFailed) => (
                Broadcaster { state: RunState::Failed(ArtNetError::SocketSetupFailed), ..self },
                ActionView::Fail { error: ArtNetError::SocketSetupFailed },
            ),
            (RunState::Broadcasting, Event::Sent) => match self.left {
                Repeat::Forever => (
                    Broadcaster { state: RunState::Sleeping, ..self },
                    ActionView::Sleep { millis: self.interval_millis },
                ),
                Repeat::Times(n) => if n <= 1 {
                    (
                        Broadcaster { state: RunState::Done, left: Repeat::Times(0), ..self },
                        ActionView::Finish,
                    )
                } else {
                    (
                        Broadcaster {
                            state: RunState::Sleeping,
                            left: Repeat::Times((n - 1) as u64),
                            ..self
                        },
                        ActionView::Sleep { millis: self.interval_millis },
                    )
                },
            },
            (RunState::Broadcasting, Event::SendFailed) => (
                Broadcaster { state: RunState::Failed(ArtNetError::SendFailed), ..self },
                ActionView::Fail { error: ArtNetError::SendFailed },
            ),
            (RunState::Sleeping, Event::Woke) => (
                Broadcaster { state: RunState::Broadcasting, ..self },
                self.send_action(),
            ),
            _ => (self, ActionView::Nothing),
        }
    }

    /// A run that has not started: `repeat` polls from `poller`, with
    /// `interval_millis` milliseconds between two of them.
    pub fn new(poller: ArtPoll, interval_millis: u64, repeat: Repeat) -> (r: Self)
        ensures
            r == (Broadcaster { poller, interval_millis, left: repeat, state: RunState::Idle }),
    {
        Broadcaster { poller, interval_millis, left: repeat, state: RunState::Idle }
    }

    /// Whether the run is over, in success or in failure.
    pub fn is_over(&self) -> (r: bool)
        ensures
            r == (self.state == RunState::Done || self.state is Failed),
    {
        match self.state {
            RunState::Done => true,
            RunState::Failed(_) => true,
            _ => false,
        }
    }

    /// Takes an event, moves the run on, and says what is to be done next.
    pub fn step(&mut self, event: Event) -> (r: Action)
        ensures
            *final(self) == old(self).spec_step(event).0,
            r@ == old(self).spec_step(event).1,
    {
        match (self.state, event) {
            (RunState::Idle, Event::Start) => {
                match self.left {
                    Repeat::Times(0) => {
                        self.state = RunState::Done;
                        Action::Finish
                    },
                    _ => {
                        let t = self.poller.poll();
                        self.state = RunState::Binding;
                        Action::Bind {
                            local: t.bind,
                            broadcast: t.broadcast,
                            multicast_loop: t.multicast_loop,
                        }
                    },
                }
            },
            (RunState::Binding, Event::SocketReady) => {
                let t = self.poller.poll();
                self.state = RunState::Broadcasting;
                Action::Send { target: t.target, payload: t.payload }
            },
            (RunState::Binding, Event::SocketFailed) => {
                self.state = RunState::Failed(ArtNetError::SocketSetupFailed);
                Action::Fail { error: ArtNetError::SocketSetupFailed }
            },
            (RunState::Broadcasting, Event::Sent) => {
                match self.left {
                    Repeat::Forever => {
                        self.state = RunState::Sleeping;
                        Action::Sleep { millis: self.interval_millis }
                    },
                    Repeat::Times(n) => {
                        if n <= 1 {
                            self.state = RunState::Done;
                            self.left = Repeat::Times(0);
                            Action::Finish
                        } else {
                            self.state = RunState::Sleeping;
                            self.left = Repeat::Times(n - 1);
                            Action::Sleep { millis: self.interval_millis }
                        }
                    },
                }
            },
            (RunState::Broadcasting, Event::SendFailed) => {
                self.state = RunState::Failed(ArtNetError::SendFailed);
                Action::Fail { error: ArtNetError::SendFailed }
            },
            (RunState::Sleeping, Event::Woke) => {
                let t = self.poller.poll();
                self.state = RunState::Broadcasting;
                Action::Send { target: t.target, payload: t.payload }
            },
            _ => Action::Nothing,
        }
    }
}

/// The run after a list of events, taken in order, and what the driver was
/// asked to do at each of them.
pub open spec fn run_through(b: Broadcaster, events: Seq<Event>) -> (Broadcaster, Seq<ActionView>)
    decreases events.len(),
{
    if events.len() == 0 {
        (b, Seq::empty())
    } else {
        let first = b.spec_step(events[0]);
        let rest = run_through(first.0, events.drop_first());
        (rest.0, seq![first.1] + rest.1)
    }
}

/// What the driver reports from the first poll on when nothing fails and
/// `polls` polls are still to go out: each poll was sent, and after each but
/// the last the interval passed.
pub open spec fn smooth_rounds(polls: nat) -> Seq<Event>
    decreases polls,
{
    if polls <= 1 {
        seq![Event::Sent]
    } else {
        seq![Event::Sent, Event::Woke] + smooth_rounds((polls - 1) as nat)
    }
}

/// What the driver reports over a whole run of `polls` polls when nothing
/// fails.
pub open spec fn smooth_events(polls: nat) -> Seq<Event> {
    seq![Event::Start, Event::SocketReady] + smooth_rounds(polls)
}

/// What the driver is asked to do from the moment the first poll went out,
/// with `polls` polls to go out in all: a sleep and the next poll, as often
/// as there is a next one, and at last to finish.
pub open spec fn smooth_rest(b: Broadcaster, polls: nat) -> Seq<ActionView>
    decreases polls,
{
    if polls <= 1 {
        seq![ActionView::Finish]
    } else {
        seq![ActionView::Sleep { millis: b.interval_millis }, b.send_action()] + smooth_rest(
            b,
            (polls - 1) as nat,
        )
    }
}

/// How many of the actions send a datagram to `target`.
pub open spec fn sends_to(actions: Seq<ActionView>, target: SocketAddress) -> nat
    decreases actions.len(),
{
    if actions.len() == 0 {
        0
    } else {
        let one: nat = match actions[0] {
            ActionView::Send { target: t, .. } => if t == target {
                1
            } else {
                0
            },
            _ => 0,
        };
        one + sends_to(actions.drop_first(), target)
    }
}

/// How many of the actions are a sleep of `millis` milliseconds.
pub open spec fn sleeps_of(actions: Seq<ActionView>, millis: u64) -> nat
    decreases actions.len(),
{
    if actions.len() == 0 {
        0
    } else {
        let one: nat = if actions[0] == (ActionView::Sleep { millis }) {
            1
        } else {
            0
        };
        one + sleeps_of(actions.drop_first(), millis)
    }
}

proof fn lemma_smooth_rounds(b: Broadcaster, polls: nat)
    requires
        b.state == RunState::Broadcasting,
        b.left == Repeat::Times(polls as u64),
        1 <= polls <= u64::MAX,
    ensures
        run_through(b, smooth_rounds(polls)) == (
            Broadcaster { state: RunState::Done, left: Repeat::Times(0), ..b },
            smooth_rest(b, polls),
        ),
    decreases polls,
{
    let events = smooth_rounds(polls);
    if polls <= 1 {
        assert(events.drop_first() =~= Seq::<Event>::empty());
        let after = b.spec_step(Event::Sent).0;
        assert(run_through(after, events.drop_first()) == (after, Seq::<ActionView>::empty()));
        assert(seq![ActionView::Finish] + Seq::<ActionView>::empty() =~= seq![ActionView::Finish]);
    } else {
        let tail = smooth_rounds((polls - 1) as nat);
        let asleep = b.spec_step(Event::Sent).0;
        let awake = asleep.spec_step(Event::Woke).0;
        assert(events[0] == Event::Sent);
        assert(events.drop_first() =~= seq![Event::Woke] + tail);
        assert(events.drop_first()[0] == Event::Woke);
        assert(events.drop_first().drop_first() =~= tail);
        assert(awake.left == Repeat::Times((polls - 1) as u64));
        lemma_smooth_rounds(awake, (polls - 1) as nat);
        assert(awake.send_action() == b.send_action());
        lemma_smooth_rest_same(awake, b, (polls - 1) as nat);
        let inner = run_through(awake, tail);
        let middle = run_through(asleep, events.drop_first());
        assert(middle.1 =~= seq![b.send_action()] + inner.1);
        assert(run_through(b, events).1 =~= smooth_rest(b, polls));
    }
}

proof fn lemma_smooth_rest_same(a: Broadcaster, b: Broadcaster, polls: nat)
    requires
        a.poller == b.poller,
        a.interval_millis == b.interval_millis,
    ensures
        smooth_rest(a, polls) == smooth_rest(b, polls),
    decreases polls,
{
    if polls > 1 {
        lemma_smooth_rest_same(a, b, (polls - 1) as nat);
    }
}

proof fn lemma_smooth_rest_counts(b: Broadcaster, polls: nat)
    requires
        polls >= 1,
    ensures
        sends_to(smooth_rest(b, polls), b.poller.poll_addr) == polls - 1,
        sleeps_of(smooth_rest(b, polls), b.interval_millis) == polls - 1,
        smooth_rest(b, polls).len() == 2 * polls - 1,
        smooth_rest(b, polls).last() == ActionView::Finish,
    decreases polls,
{
    let actions = smooth_rest(b, polls);
    if polls <= 1 {
        assert(actions.drop_first() =~= Seq::<ActionView>::empty());
        assert(sends_to(actions.drop_first(), b.poller.poll_addr) == 0);
        assert(sleeps_of(actions.drop_first(), b.interval_millis) == 0);
    } else {
        let tail = smooth_rest(b, (polls - 1) as nat);
        lemma_smooth_rest_counts(b, (polls - 1) as nat);
        assert(actions.drop_first() =~= seq![b.send_action()] + tail);
        assert(actions.drop_first().drop_first() =~= tail);
        assert(actions.drop_first()[0] == b.send_action());
        assert(sends_to(actions.drop_first(), b.poller.poll_addr) == 1 + sends_to(
            tail,
            b.poller.poll_addr,
        ));
        assert(sleeps_of(actions.drop_first(), b.interval_millis) == sleeps_of(
            tail,
            b.interval_millis,
        ));
    }
}

/// A run in which nothing fails. When a run of `polls` polls, one at least,
/// is started and every bind, send and sleep succeeds, the driver is asked
/// to bind once, then to send the poll, then to sleep for the interval and
/// send again for each further poll, and then to finish, and the run ends
/// done. So exactly `polls` datagrams go to the poller's endpoint, with
/// `polls - 1` sleeps of the interval between them.
pub proof fn lemma_smooth_run(poller: ArtPoll, interval_millis: u64, polls: u64)
    requires
        polls >= 1,
    ensures
        ({
            let b = Broadcaster {
                poller,
                interval_millis,
                left: Repeat::Times(polls),
                state: RunState::Idle,
            };
            let end = run_through(b, smooth_events(polls as nat));
            &&& end.0.state == RunState::Done
            &&& end.1 == seq![b.bind_action(), b.send_action()] + smooth_rest(b, polls as nat)
            &&& sends_to(end.1, poller.poll_addr) == polls
            &&& sleeps_of(end.1, interval_millis) == polls - 1
            &&& end.1.last() == ActionView::Finish
        }),
{
    let b = Broadcaster { poller, interval_millis, left: Repeat::Times(polls), state: RunState::Idle };
    let events = smooth_events(polls as nat);
    let rounds = smooth_rounds(polls as nat);
    let binding = b.spec_step(Event::Start).0;
    let sending = binding.spec_step(Event::SocketReady).0;
    assert(events[0] == Event::Start);
    assert(events.drop_first() =~= seq![Event::SocketReady] + rounds);
    assert(events.drop_first()[0] == Event::SocketReady);
    assert(events.drop_first().drop_first() =~= rounds);
    lemma_smooth_rounds(sending, polls as nat);
    lemma_smooth_rest_same(sending, b, polls as nat);
    lemma_smooth_rest_counts(b, polls as nat);
    let rest = smooth_rest(b, polls as nat);
    let inner = run_through(sending, rounds);
    let middle = run_through(binding, events.drop_first());
    assert(middle.1 =~= seq![b.send_action()] + rest);
    let end = run_through(b, events);
    let expected = seq![b.bind_action(), b.send_action()] + rest;
    assert(end.1 =~= expected);
    assert(expected.drop_first() =~= seq![b.send_action()] + rest);
    assert(expected.drop_first().drop_first() =~= rest);
    assert(expected.drop_first()[0] == b.send_action());
    assert(sends_to(expected.drop_first(), poller.poll_addr) == 1 + sends_to(
        rest,
        poller.poll_addr,
    ));
    assert(sleeps_of(expected.drop_first(), interval_millis) == sleeps_of(rest, interval_millis));
    assert(expected.last() == rest.last());
}

} // verus!
