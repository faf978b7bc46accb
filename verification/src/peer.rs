use vstd::prelude::*;

use crate::config::Config;
use crate::event::Event;
use crate::event_queue::EventQueue;
use crate::state::State;
use crate::table::counter_after;
use crate::table::limit_alert;
use crate::table::transition;
use crate::table::Action;
use crate::table::CounterOp;
use crate::table::NotificationKind;
use crate::table::CONNECT_RETRY_LIMIT;
use crate::table::CONNECT_RETRY_TIME;
use crate::table::HOLD_TIME;
use crate::table::LARGE_HOLD_TIME;
use crate::timer::timer_after;
use crate::timer::Timer;

verus! {

/// The mathematical model of a peer: its state, the pending events oldest
/// first, its immutable configuration, the ConnectRetryCounter, and the
/// five timers the table commands.
#[verifier::ext_equal]
pub ghost struct PeerModel {
    pub state: State,
    pub queue: Seq<Event>,
    pub config: Config,
    pub counter: u64,
    pub connect_retry: Timer,
    pub hold: Timer,
    pub keepalive: Timer,
    pub delay_open: Timer,
    pub idle_hold: Timer,
}

/// The model as a freshly constructed peer leaves it: Idle, an empty
/// queue, a zero counter, every timer down.
pub open spec fn initial_model(config: Config) -> PeerModel {
    PeerModel {
        state: State::Idle,
        queue: Seq::<Event>::empty(),
        config: config,
        counter: 0u64,
        connect_retry: Timer { running: false, interval: 0 },
        hold: Timer { running: false, interval: 0 },
        keepalive: Timer { running: false, interval: 0 },
        delay_open: Timer { running: false, interval: 0 },
        idle_hold: Timer { running: false, interval: 0 },
    }
}

/// The model with one more event pending at the tail.
pub open spec fn enqueued(p: PeerModel, e: Event) -> PeerModel {
    PeerModel { queue: p.queue.push(e), ..p }
}

/// The model after one step on a non-empty queue: the oldest pending event
/// is consumed and its table row applied to the state, the counter and the
/// timers; the configuration never moves.
pub open spec fn stepped(p: PeerModel) -> PeerModel
    recommends
        p.queue.len() > 0,
{
    let e = p.queue[0];
    let row = transition(p.state, e, p.config.mode);
    PeerModel {
        state: row.next,
        queue: p.queue.drop_first(),
        config: p.config,
        counter: counter_after(p.counter, row.counter),
        connect_retry: timer_after(p.connect_retry, row.connect_retry),
        hold: timer_after(p.hold, row.hold),
        keepalive: timer_after(p.keepalive, row.keepalive),
        delay_open: timer_after(p.delay_open, row.delay_open),
        idle_hold: timer_after(p.idle_hold, row.idle_hold),
    }
}

/// The side effects one step on a non-empty queue reports: the table
/// row's actions, followed by the retry-limit alert where the counted
/// failure left the ConnectRetryCounter above the configured limit.
pub open spec fn step_actions(p: PeerModel) -> Seq<Action>
    recommends
        p.queue.len() > 0,
{
    let row = transition(p.state, p.queue[0], p.config.mode);
    row.actions + limit_alert(p.counter, counter_after(p.counter, row.counter))
}

/// An event the table defines no transition for is consumed as an
/// idempotent no-op: the step removes it from the queue and leaves the
/// state, the configuration, the counter and every timer exactly as they
/// were, and reports no side effect at all — a spurious event is expected
/// noise, never escalated.
pub proof fn lemma_spurious_event_changes_nothing(p: PeerModel)
    requires
        p.queue.len() > 0,
        !crate::table::is_defined(p.state, p.queue[0]),
    ensures
        stepped(p) == (PeerModel { queue: p.queue.drop_first(), ..p }),
        stepped(p).state == p.state,
        stepped(p).counter == p.counter,
        step_actions(p) == Seq::<Action>::empty(),
{
    crate::table::lemma_undefined_pair_is_no_op(p.state, p.queue[0], p.config.mode);
    assert(step_actions(p) =~= Seq::<Action>::empty());
}

/// From Idle a start command yields Connect; past Idle a re-enqueued
/// start command is consumed silently, changing nothing but the queue. So
/// over any run, each pass through Idle turns at most one start command
/// into an Idle-to-Connect transition, however many are enqueued.
pub proof fn lemma_start_yields_connect_once(p: PeerModel)
    requires
        p.queue.len() > 0,
        p.queue[0] == Event::ManualStart || p.queue[0] == Event::AutomaticStart,
    ensures
        p.state == State::Idle ==> stepped(p).state == State::Connect,
        p.state != State::Idle ==> stepped(p) == (PeerModel { queue: p.queue.drop_first(), ..p }),
        p.state != State::Idle ==> step_actions(p) == Seq::<Action>::empty(),
{
    crate::table::lemma_start_fires_only_from_idle(p.state, p.config.mode);
    if p.state != State::Idle {
        assert(step_actions(p) =~= Seq::<Action>::empty());
    }
}

/// Fail-fast collapse at the peer: a malformed-message or version-error
/// report at the head of the queue drives every non-Idle state to Idle in
/// one step with every timer down; malformed content is answered with the
/// matching NOTIFICATION first. The error leaves the peer only through
/// the reported actions, and the peer stays usable afterwards.
pub proof fn lemma_protocol_error_fail_fast(p: PeerModel)
    requires
        p.queue.len() > 0,
        p.state != State::Idle,
        p.queue[0] == Event::BgpHeaderErr || p.queue[0] == Event::BgpOpenMsgErr || p.queue[0]
            == Event::NotifMsgVerErr,
    ensures
        stepped(p).state == State::Idle,
        stepped(p).connect_retry == (Timer { running: false, interval: 0 }),
        stepped(p).hold == (Timer { running: false, interval: 0 }),
        stepped(p).keepalive == (Timer { running: false, interval: 0 }),
        step_actions(p).len() > 0,
        p.queue[0] == Event::BgpHeaderErr ==> step_actions(p)[0] == Action::SendNotification(
            NotificationKind::HeaderError,
        ),
        p.queue[0] == Event::BgpOpenMsgErr ==> step_actions(p)[0] == Action::SendNotification(
            NotificationKind::OpenMessageError,
        ),
{
    crate::table::lemma_protocol_error_collapses_to_idle(p.state, p.queue[0], p.config.mode);
}

/// A malformed-OPEN report in OpenSent collapses the session: the machine
/// falls to Idle, answers with an OPEN-message-error NOTIFICATION,
/// releases its resources with every timer down, and leaves the
/// ConnectRetryCounter untouched on this path. The peer stays usable and
/// the session may be started again.
pub proof fn lemma_open_sent_open_error(p: PeerModel)
    requires
        p.queue.len() > 0,
        p.state == State::OpenSent,
        p.queue[0] == Event::BgpOpenMsgErr,
    ensures
        stepped(p).state == State::Idle,
        stepped(p).counter == p.counter,
        stepped(p).connect_retry == (Timer { running: false, interval: 0 }),
        stepped(p).hold == (Timer { running: false, interval: 0 }),
        stepped(p).keepalive == (Timer { running: false, interval: 0 }),
        step_actions(p) == seq![
            Action::SendNotification(NotificationKind::OpenMessageError),
            Action::ReleaseResources,
            Action::DropTcpConnection,
            Action::NotifyOperator(State::OpenSent, Event::BgpOpenMsgErr),
        ],
{
    assert(step_actions(p) =~= seq![
        Action::SendNotification(NotificationKind::OpenMessageError),
        Action::ReleaseResources,
        Action::DropTcpConnection,
        Action::NotifyOperator(State::OpenSent, Event::BgpOpenMsgErr),
    ]);
}

/// A hold-timer expiry in Established collapses the session to Idle with
/// a Hold Timer Expired NOTIFICATION first among the side effects, brings
/// every timer down, and counts the failure: the ConnectRetryCounter
/// grows by exactly one (saturating only at the machine ceiling, as
/// `counter_after` states).
pub proof fn lemma_established_hold_expiry(p: PeerModel)
    requires
        p.queue.len() > 0,
        p.state == State::Established,
        p.queue[0] == Event::HoldTimerExpires,
    ensures
        stepped(p).state == State::Idle,
        p.counter < u64::MAX ==> stepped(p).counter == p.counter + 1,
        stepped(p).connect_retry == (Timer { running: false, interval: 0 }),
        stepped(p).hold == (Timer { running: false, interval: 0 }),
        stepped(p).keepalive == (Timer { running: false, interval: 0 }),
        step_actions(p)[0] == Action::SendNotification(NotificationKind::HoldTimerExpired),
{
}

/// What one call of [`Peer::next`] reports back to the driving task: which
/// event was consumed, the state before and after, and the side effects,
/// in order, that the caller must carry out.
#[derive(Debug)]
pub struct Step {
    pub event: Event,
    pub from: State,
    pub to: State,
    pub actions: Vec<Action>,
}

/// One BGP peering session as an event-driven state machine, per the
/// implementation approach of RFC 4271 section 8. The peer owns the
/// authoritative state, the event queue, the immutable configuration, the
/// ConnectRetryCounter and the timers, and is the sole mutator of its own
/// state: each call of `next` consumes exactly one pending event.
#[derive(Debug)]
pub struct Peer {
    state: State,
    event_queue: EventQueue,
    config: Config,
    connect_retry_counter: u64,
    connect_retry_timer: Timer,
    hold_timer: Timer,
    keepalive_timer: Timer,
    delay_open_timer: Timer,
    idle_hold_timer: Timer,
}

impl View for Peer {
    type V = PeerModel;

    closed spec fn view(&self) -> PeerModel {
        PeerModel {
            state: self.state,
            queue: self.event_queue@,
            config: self.config,
            counter: self.connect_retry_counter,
            connect_retry: self.connect_retry_timer,
            hold: self.hold_timer,
            keepalive: self.keepalive_timer,
            delay_open: self.delay_open_timer,
            idle_hold: self.idle_hold_timer,
        }
    }
}

/// The ConnectRetryCounter after one increment, saturating at the machine
/// limit.
fn bump(c: u64) -> (r: u64)
    ensures
        r == counter_after(c, CounterOp::Increment),
{
    if c == u64::MAX {
        c
    } else {
        c + 1
    }
}

impl Peer {
    /// A fresh session over `config`: Idle, nothing pending, every timer
    /// down. A well-typed configuration is already validated; malformed
    /// text is rejected earlier, by [`Config::parse`](crate::config).
    pub fn new(config: Config) -> (p: Peer)
        ensures
            p@ == initial_model(config),
    {
        let p = Peer {
            state: State::Idle,
            event_queue: EventQueue::new(),
            config: config,
            connect_retry_counter: 0,
            connect_retry_timer: Timer::stopped(),
            hold_timer: Timer::stopped(),
            keepalive_timer: Timer::stopped(),
            delay_open_timer: Timer::stopped(),
            idle_hold_timer: Timer::stopped(),
        };
        proof {
            assert(p@ =~= initial_model(config));
        }
        p
    }

    /// Asks the session to come up by enqueueing ManualStart; the
    /// transition itself happens on the next step.
    pub fn start(&mut self)
        ensures
            final(self)@ == enqueued(old(self)@, Event::ManualStart),
    {
        self.event_queue.enqueue(Event::ManualStart);
        proof {
            assert(self@ =~= enqueued(old(self)@, Event::ManualStart));
        }
    }

    /// The producers' interface: a timer expiry, a transport notification
    /// or a decoded message arrival joins the queue at the tail. Nothing is
    /// dropped or coalesced; an event irrelevant to the state at
    /// consumption time will be consumed as a no-op.
    pub fn enqueue_event(&mut self, event: Event)
        ensures
            final(self)@ == enqueued(old(self)@, event),
    {
        self.event_queue.enqueue(event);
        proof {
            assert(self@ =~= enqueued(old(self)@, event));
        }
    }

    /// Consumes one pending event and applies its table row; on an empty
    /// queue it reports `None` and changes nothing, the expected condition
    /// the driving task suspends on. The reported step says which event
    /// was consumed, where the machine went, and what the caller must do.
    pub fn next(&mut self) -> (r: Option<Step>)
        ensures
            old(self)@.queue.len() == 0 ==> r is None && final(self)@ == old(self)@,
            old(self)@.queue.len() > 0 ==> ({
                let e = old(self)@.queue[0];
                let row = transition(old(self)@.state, e, old(self)@.config.mode);
                &&& final(self)@ == stepped(old(self)@)
                &&& (r matches Some(st) && st.event == e && st.from == old(self)@.state
                    && st.to == row.next && st.actions@ == step_actions(old(self)@))
            }),
    {
        match self.event_queue.dequeue() {
            None => None,
            Some(event) => {
                let from = self.state;
                let actions = self.handle_event(event);
                proof {
                    assert(self@ =~= stepped(old(self)@));
                }
                Some(Step { event: event, from: from, to: self.state, actions: actions })
            }
        }
    }

    /// Applies the table row for (current state, `event`) to the state,
    /// the counter and the timers, returns the row's side effects followed
    /// by the retry-limit alert where one is owed; the queue and the
    /// configuration are untouched.
    fn handle_event(&mut self, event: Event) -> (acts: Vec<Action>)
        ensures
            ({
                let row = transition(old(self)@.state, event, old(self)@.config.mode);
                &&& final(self)@.state == row.next
                &&& final(self)@.queue == old(self)@.queue
                &&& final(self)@.config == old(self)@.config
                &&& final(self)@.counter == counter_after(old(self)@.counter, row.counter)
                &&& final(self)@.connect_retry == timer_after(
                    old(self)@.connect_retry,
                    row.connect_retry,
                )
                &&& final(self)@.hold == timer_after(old(self)@.hold, row.hold)
                &&& final(self)@.keepalive == timer_after(old(self)@.keepalive, row.keepalive)
                &&& final(self)@.delay_open == timer_after(old(self)@.delay_open, row.delay_open)
                &&& final(self)@.idle_hold == timer_after(old(self)@.idle_hold, row.idle_hold)
                &&& acts@ =~= row.actions + limit_alert(
                    old(self)@.counter,
                    counter_after(old(self)@.counter, row.counter),
                )
            }),
    {
        let old_counter = self.connect_retry_counter;
        let mut acts = self.apply_row(event);
        if self.connect_retry_counter != old_counter && self.connect_retry_counter
            > CONNECT_RETRY_LIMIT {
            acts.push(Action::AlertRetryLimitExceeded);
        }
        acts
    }

    /// Applies the table row for (current state, `event`) to the state,
    /// the counter and the timers, and returns the row's side effects; the
    /// queue and the configuration are untouched.
    fn apply_row(&mut self, event: Event) -> (acts: Vec<Action>)
        ensures
            ({
                let row = transition(old(self)@.state, event, old(self)@.config.mode);
                &&& final(self)@.state == row.next
                &&& final(self)@.queue == old(self)@.queue
                &&& final(self)@.config == old(self)@.config
                &&& final(self)@.counter == counter_after(old(self)@.counter, row.counter)
                &&& final(self)@.connect_retry == timer_after(
                    old(self)@.connect_retry,
                    row.connect_retry,
                )
                &&& final(self)@.hold == timer_after(old(self)@.hold, row.hold)
                &&& final(self)@.keepalive == timer_after(old(self)@.keepalive, row.keepalive)
                &&& final(self)@.delay_open == timer_after(old(self)@.delay_open, row.delay_open)
                &&& final(self)@.idle_hold == timer_after(old(self)@.idle_hold, row.idle_hold)
                &&& acts@ =~= row.actions
            }),
    {
        let from = self.state;
        match (self.state, event) {
            (State::Idle, Event::ManualStart) => {
                self.state = State::Connect;
                self.connect_retry_counter = 0;
                self.connect_retry_timer.start(CONNECT_RETRY_TIME);
                vec![self.transport_start()]
            }
            (State::Idle, Event::AutomaticStart) => {
                self.state = State::Connect;
                self.connect_retry_timer.start(CONNECT_RETRY_TIME);
                vec![self.transport_start()]
            }
            (State::Idle, Event::ManualStop) => {
                self.connect_retry_counter = 0;
                self.stop_timers();
                Vec::new()
            }
            (State::Connect, Event::ManualStop) | (State::Active, Event::ManualStop) => {
                self.state = State::Idle;
                self.connect_retry_counter = 0;
                self.stop_timers();
                vec![Action::DropTcpConnection, Action::ReleaseResources]
            }
            (State::Connect, Event::AutomaticStop) | (State::Active, Event::AutomaticStop) => {
                self.state = State::Idle;
                self.connect_retry_counter = bump(self.connect_retry_counter);
                self.stop_timers();
                vec![Action::DropTcpConnection, Action::ReleaseResources]
            }
            (State::Connect, Event::ConnectRetryTimerExpires) => {
                self.connect_retry_timer.start(CONNECT_RETRY_TIME);
                vec![Action::DropTcpConnection, self.transport_start()]
            }
            (State::Active, Event::ConnectRetryTimerExpires) => {
                self.state = State::Connect;
                self.connect_retry_timer.start(CONNECT_RETRY_TIME);
                vec![self.transport_start()]
            }
            (State::Connect, Event::TcpCrAcked)
            | (State::Connect, Event::TcpConnectionConfirmed)
            | (State::Active, Event::TcpCrAcked)
            | (State::Active, Event::TcpConnectionConfirmed) => {
                self.state = State::OpenSent;
                self.connect_retry_timer.stop();
                self.hold_timer.start(LARGE_HOLD_TIME);
                vec![Action::SendOpen]
            }
            (State::Connect, Event::TcpConnectionFails) => {
                self.state = State::Active;
                self.connect_retry_timer.start(CONNECT_RETRY_TIME);
                vec![Action::DropTcpConnection]
            }
            (State::Active, Event::TcpConnectionFails) => {
                self.state = State::Idle;
                self.connect_retry_counter = bump(self.connect_retry_counter);
                self.stop_timers();
                vec![Action::ReleaseResources, Action::NotifyOperator(from, event)]
            }
            (State::Connect, Event::NotifMsgVerErr) | (State::Active, Event::NotifMsgVerErr) => {
                self.state = State::Idle;
                self.stop_timers();
                vec![
                    Action::ReleaseResources,
                    Action::DropTcpConnection,
                    Action::NotifyOperator(from, event),
                ]
            }
            (State::OpenSent, Event::ManualStop)
            | (State::OpenConfirm, Event::ManualStop)
            | (State::Established, Event::ManualStop) => {
                self.state = State::Idle;
                self.connect_retry_counter = 0;
                self.stop_timers();
                vec![
                    Action::SendNotification(NotificationKind::Cease),
                    Action::DropTcpConnection,
                    Action::ReleaseResources,
                ]
            }
            (State::OpenSent, Event::AutomaticStop)
            | (State::OpenConfirm, Event::AutomaticStop)
            | (State::Established, Event::AutomaticStop) => {
                self.state = State::Idle;
                self.connect_retry_counter = bump(self.connect_retry_counter);
                self.stop_timers();
                vec![
                    Action::SendNotification(NotificationKind::Cease),
                    Action::DropTcpConnection,
                    Action::ReleaseResources,
                ]
            }
            (State::OpenSent, Event::HoldTimerExpires)
            | (State::OpenConfirm, Event::HoldTimerExpires)
            | (State::Established, Event::HoldTimerExpires) => {
                self.state = State::Idle;
                self.connect_retry_counter = bump(self.connect_retry_counter);
                self.stop_timers();
                vec![
                    Action::SendNotification(NotificationKind::HoldTimerExpired),
                    Action::ReleaseResources,
                    Action::DropTcpConnection,
                    Action::NotifyOperator(from, event),
                ]
            }
            (State::OpenSent, Event::TcpConnectionFails) => {
                self.state = State::Active;
                self.connect_retry_timer.start(CONNECT_RETRY_TIME);
                self.hold_timer.stop();
                self.keepalive_timer.stop();
                vec![Action::DropTcpConnection]
            }
            (State::OpenSent, Event::BgpOpen) => {
                self.state = State::OpenConfirm;
                self.connect_retry_timer.stop();
                self.hold_timer.start(HOLD_TIME);
                self.keepalive_timer.start(HOLD_TIME / 3);
                vec![Action::SendKeepalive]
            }
            (State::OpenSent, Event::BgpHeaderErr) => {
                self.state = State::Idle;
                self.stop_timers();
                vec![
                    Action::SendNotification(NotificationKind::HeaderError),
                    Action::ReleaseResources,
                    Action::DropTcpConnection,
                    Action::NotifyOperator(from, event),
                ]
            }
            (State::OpenSent, Event::BgpOpenMsgErr) => {
                self.state = State::Idle;
                self.stop_timers();
                vec![
                    Action::SendNotification(NotificationKind::OpenMessageError),
                    Action::ReleaseResources,
                    Action::DropTcpConnection,
                    Action::NotifyOperator(from, event),
                ]
            }
            (State::OpenSent, Event::NotifMsg) => {
                self.state = State::Idle;
                self.connect_retry_counter = bump(self.connect_retry_counter);
                self.stop_timers();
                vec![
                    Action::ReleaseResources,
                    Action::DropTcpConnection,
                    Action::NotifyOperator(from, event),
                ]
            }
            (State::OpenSent, Event::NotifMsgVerErr) => {
                self.state = State::Idle;
                self.stop_timers();
                vec![
                    Action::ReleaseResources,
                    Action::DropTcpConnection,
                    Action::NotifyOperator(from, event),
                ]
            }
            (State::OpenConfirm, Event::KeepaliveTimerExpires)
            | (State::Established, Event::KeepaliveTimerExpires) => {
                self.keepalive_timer.start(HOLD_TIME / 3);
                vec![Action::SendKeepalive]
            }
            (State::OpenConfirm, Event::TcpConnectionFails)
            | (State::OpenConfirm, Event::NotifMsg)
            | (State::Established, Event::TcpConnectionFails)
            | (State::Established, Event::NotifMsg)
            | (State::Established, Event::NotifMsgVerErr) => {
                self.state = State::Idle;
                self.connect_retry_counter = bump(self.connect_retry_counter);
                self.stop_timers();
                vec![
                    Action::ReleaseResources,
                    Action::DropTcpConnection,
                    Action::NotifyOperator(from, event),
                ]
            }
            (State::Connect, Event::BgpHeaderErr)
            | (State::Active, Event::BgpHeaderErr)
            | (State::OpenConfirm, Event::BgpHeaderErr)
            | (State::Established, Event::BgpHeaderErr) => {
                self.state = State::Idle;
                self.connect_retry_counter = bump(self.connect_retry_counter);
                self.stop_timers();
                vec![
                    Action::SendNotification(NotificationKind::HeaderError),
                    Action::ReleaseResources,
                    Action::DropTcpConnection,
                    Action::NotifyOperator(from, event),
                ]
            }
            (State::Connect, Event::BgpOpenMsgErr)
            | (State::Active, Event::BgpOpenMsgErr)
            | (State::OpenConfirm, Event::BgpOpenMsgErr)
            | (State::Established, Event::BgpOpenMsgErr) => {
                self.state = State::Idle;
                self.connect_retry_counter = bump(self.connect_retry_counter);
                self.stop_timers();
                vec![
                    Action::SendNotification(NotificationKind::OpenMessageError),
                    Action::ReleaseResources,
                    Action::DropTcpConnection,
                    Action::NotifyOperator(from, event),
                ]
            }
            (State::OpenConfirm, Event::NotifMsgVerErr) => {
                self.state = State::Idle;
                self.stop_timers();
                vec![
                    Action::ReleaseResources,
                    Action::DropTcpConnection,
                    Action::NotifyOperator(from, event),
                ]
            }
            (State::OpenConfirm, Event::KeepAliveMsg) => {
                self.state = State::Established;
                self.hold_timer.start(HOLD_TIME);
                Vec::new()
            }
            (State::Established, Event::KeepAliveMsg) => {
                self.hold_timer.start(HOLD_TIME);
                Vec::new()
            }
            (State::Established, Event::UpdateMsg) => {
                self.hold_timer.start(HOLD_TIME);
                vec![Action::ForwardUpdateToRib]
            }
            (State::Established, Event::UpdateMsgErr) => {
                self.state = State::Idle;
                self.connect_retry_counter = bump(self.connect_retry_counter);
                self.stop_timers();
                vec![
                    Action::SendNotification(NotificationKind::UpdateMessageError),
                    Action::ReleaseResources,
                    Action::DropTcpConnection,
                    Action::NotifyOperator(from, event),
                ]
            }
            _ => Vec::new(),
        }
    }

    /// The transport start action this session's mode calls for.
    fn transport_start(&self) -> (a: Action)
        ensures
            a == crate::table::transport_start_action(self@.config.mode),
    {
        match self.config.mode {
            crate::config::Mode::Active => Action::InitiateTcpConnection,
            crate::config::Mode::Passive => Action::ListenForTcpConnection,
        }
    }

    /// Brings every timer down, as session teardown requires.
    fn stop_timers(&mut self)
        ensures
            final(self)@ == (PeerModel {
                connect_retry: Timer { running: false, interval: 0 },
                hold: Timer { running: false, interval: 0 },
                keepalive: Timer { running: false, interval: 0 },
                delay_open: Timer { running: false, interval: 0 },
                idle_hold: Timer { running: false, interval: 0 },
                ..old(self)@
            }),
    {
        self.connect_retry_timer.stop();
        self.hold_timer.stop();
        self.keepalive_timer.stop();
        self.delay_open_timer.stop();
        self.idle_hold_timer.stop();
    }

    /// The current session state, read-only.
    pub fn state(&self) -> (s: State)
        ensures
            s == self@.state,
    {
        self.state
    }

    /// The immutable configuration this session runs over.
    pub fn config(&self) -> (c: Config)
        ensures
            c == self@.config,
    {
        self.config
    }

    /// How many events are pending in this peer's queue.
    pub fn pending_events(&self) -> (n: usize)
        ensures
            n == self@.queue.len(),
    {
        self.event_queue.len()
    }

    /// How many times this session has fallen back to Idle on a counted
    /// failure since the last reset.
    pub fn connect_retry_counter(&self) -> (n: u64)
        ensures
            n == self@.counter,
    {
        self.connect_retry_counter
    }

    /// The ConnectRetryTimer as the table last commanded it.
    pub fn connect_retry_timer(&self) -> (t: Timer)
        ensures
            t == self@.connect_retry,
    {
        self.connect_retry_timer
    }

    /// The HoldTimer as the table last commanded it.
    pub fn hold_timer(&self) -> (t: Timer)
        ensures
            t == self@.hold,
    {
        self.hold_timer
    }

    /// The KeepaliveTimer as the table last commanded it.
    pub fn keepalive_timer(&self) -> (t: Timer)
        ensures
            t == self@.keepalive,
    {
        self.keepalive_timer
    }

    /// The DelayOpenTimer. No row of this table arms it (the delayed-OPEN
    /// option is not configured), so it stays down and its expiry event is
    /// consumed as a no-op.
    pub fn delay_open_timer(&self) -> (t: Timer)
        ensures
            t == self@.delay_open,
    {
        self.delay_open_timer
    }

    /// The IdleHoldTimer. No row of this table arms it (peer-oscillation
    /// damping is outside this core), so it stays down and its expiry
    /// event is consumed as a no-op.
    pub fn idle_hold_timer(&self) -> (t: Timer)
        ensures
            t == self@.idle_hold,
    {
        self.idle_hold_timer
    }
}

} // verus!
