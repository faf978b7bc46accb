use vstd::prelude::*;

use crate::config::Mode;
use crate::event::Event;
use crate::state::State;
use crate::timer::TimerOp;

verus! {

/// Seconds the ConnectRetryTimer runs between transport connection
/// attempts (the RFC 4271 suggested default, with no exponential backoff).
pub const CONNECT_RETRY_TIME: u64 = 120;

/// Seconds the HoldTimer runs right after an OPEN is sent, before a hold
/// time has been negotiated; the RFC suggests a large value of four minutes.
pub const LARGE_HOLD_TIME: u64 = 240;

/// Seconds of hold time a session runs with once open (the RFC 4271
/// suggested default). A value of zero would disable hold timing entirely.
pub const HOLD_TIME: u64 = 90;

/// The ceiling of this core's ConnectRetryCounter policy: a counted
/// failure that leaves the counter above this many is reported to the
/// operational alerting collaborator, and nothing more — the peer keeps
/// retrying until administratively stopped.
pub const CONNECT_RETRY_LIMIT: u64 = 5;

/// The error a NOTIFICATION message reports when the machine tears a
/// session down.
#[derive(Clone, Copy, Debug, PartialEq, Eq, Structural)]
pub enum NotificationKind {
    Cease,
    HoldTimerExpired,
    HeaderError,
    OpenMessageError,
    UpdateMessageError,
}

/// A side effect the machine asks its caller to carry out: transport work,
/// a message to send, resources to release, or a signal to the routing or
/// operational collaborator. `NotifyOperator` carries the prior state and
/// the triggering event for diagnostics on every error-driven fall to
/// Idle; `AlertRetryLimitExceeded` reports a counted failure past the
/// configured ConnectRetryCounter limit.
#[derive(Clone, Copy, Debug, PartialEq, Eq, Structural)]
pub enum Action {
    InitiateTcpConnection,
    ListenForTcpConnection,
    DropTcpConnection,
    SendOpen,
    SendKeepalive,
    SendNotification(NotificationKind),
    ReleaseResources,
    ForwardUpdateToRib,
    NotifyOperator(State, Event),
    AlertRetryLimitExceeded,
}

/// What one transition does to the ConnectRetryCounter.
#[derive(Clone, Copy, Debug, PartialEq, Eq, Structural)]
pub enum CounterOp {
    Keep,
    Reset,
    Increment,
}

/// The counter a command leaves behind; an increment saturates at the
/// machine limit rather than wrap.
pub open spec fn counter_after(c: u64, op: CounterOp) -> u64 {
    match op {
        CounterOp::Keep => c,
        CounterOp::Reset => 0u64,
        CounterOp::Increment => if c == u64::MAX {
            c
        } else {
            (c + 1) as u64
        },
    }
}

/// The alert that accompanies a counted failure which leaves the
/// ConnectRetryCounter above the configured limit: a report to the
/// alerting collaborator, never an error. A counter that stands still
/// (including at the saturation ceiling) reports nothing.
pub open spec fn limit_alert(old_c: u64, new_c: u64) -> Seq<Action> {
    if new_c != old_c && new_c > CONNECT_RETRY_LIMIT {
        seq![Action::AlertRetryLimitExceeded]
    } else {
        Seq::<Action>::empty()
    }
}

/// One row of the transition table: the next state, what happens to the
/// ConnectRetryCounter and to each of the five timers, and the side
/// effects to emit, in order.
#[verifier::ext_equal]
pub ghost struct Row {
    pub next: State,
    pub counter: CounterOp,
    pub connect_retry: TimerOp,
    pub hold: TimerOp,
    pub keepalive: TimerOp,
    pub delay_open: TimerOp,
    pub idle_hold: TimerOp,
    pub actions: Seq<Action>,
}

/// The row that consumes an event without any effect: the state stands,
/// nothing is emitted, no timer or counter moves.
pub open spec fn no_op(s: State) -> Row {
    Row {
        next: s,
        counter: CounterOp::Keep,
        connect_retry: TimerOp::Keep,
        hold: TimerOp::Keep,
        keepalive: TimerOp::Keep,
        delay_open: TimerOp::Keep,
        idle_hold: TimerOp::Keep,
        actions: Seq::<Action>::empty(),
    }
}

/// A row that releases the session: the machine falls to Idle and every
/// timer is brought down, whatever else the row emits.
pub open spec fn teardown_row(counter: CounterOp, actions: Seq<Action>) -> Row {
    Row {
        next: State::Idle,
        counter: counter,
        connect_retry: TimerOp::Stop,
        hold: TimerOp::Stop,
        keepalive: TimerOp::Stop,
        delay_open: TimerOp::Stop,
        idle_hold: TimerOp::Stop,
        actions: actions,
    }
}

/// How a transport connection attempt begins: initiated by this speaker in
/// active mode, awaited from the peer in passive mode.
pub open spec fn transport_start_action(m: Mode) -> Action {
    match m {
        Mode::Active => Action::InitiateTcpConnection,
        Mode::Passive => Action::ListenForTcpConnection,
    }
}

/// The HoldTimer command for a session running with hold time `v`; a hold
/// time of zero disables hold timing entirely, so the timer stays down.
pub open spec fn hold_start_op(v: u64) -> TimerOp {
    if v == 0 {
        TimerOp::Stop
    } else {
        TimerOp::Start(v)
    }
}

/// The KeepaliveTimer command for a session running with hold time `v`:
/// one third of the hold time, or down when hold timing is disabled.
pub open spec fn keepalive_start_op(v: u64) -> TimerOp {
    if v == 0 {
        TimerOp::Stop
    } else {
        TimerOp::Start((v / 3) as u64)
    }
}

/// Whether the table defines a transition for this pair; every other pair
/// is consumed as a deliberate no-op, defense against spurious or duplicate
/// events, never an error.
pub open spec fn is_defined(s: State, e: Event) -> bool {
    match (s, e) {
        (State::Idle, Event::ManualStart) => true,
        (State::Idle, Event::AutomaticStart) => true,
        (State::Idle, Event::ManualStop) => true,
        (State::Connect, Event::ManualStop) => true,
        (State::Connect, Event::AutomaticStop) => true,
        (State::Connect, Event::ConnectRetryTimerExpires) => true,
        (State::Connect, Event::TcpCrAcked) => true,
        (State::Connect, Event::TcpConnectionConfirmed) => true,
        (State::Connect, Event::TcpConnectionFails) => true,
        (State::Connect, Event::BgpHeaderErr) => true,
        (State::Connect, Event::BgpOpenMsgErr) => true,
        (State::Connect, Event::NotifMsgVerErr) => true,
        (State::Active, Event::ManualStop) => true,
        (State::Active, Event::AutomaticStop) => true,
        (State::Active, Event::ConnectRetryTimerExpires) => true,
        (State::Active, Event::TcpCrAcked) => true,
        (State::Active, Event::TcpConnectionConfirmed) => true,
        (State::Active, Event::TcpConnectionFails) => true,
        (State::Active, Event::BgpHeaderErr) => true,
        (State::Active, Event::BgpOpenMsgErr) => true,
        (State::Active, Event::NotifMsgVerErr) => true,
        (State::OpenSent, Event::ManualStop) => true,
        (State::OpenSent, Event::AutomaticStop) => true,
        (State::OpenSent, Event::HoldTimerExpires) => true,
        (State::OpenSent, Event::TcpConnectionFails) => true,
        (State::OpenSent, Event::BgpOpen) => true,
        (State::OpenSent, Event::BgpHeaderErr) => true,
        (State::OpenSent, Event::BgpOpenMsgErr) => true,
        (State::OpenSent, Event::NotifMsg) => true,
        (State::OpenSent, Event::NotifMsgVerErr) => true,
        (State::OpenConfirm, Event::ManualStop) => true,
        (State::OpenConfirm, Event::AutomaticStop) => true,
        (State::OpenConfirm, Event::HoldTimerExpires) => true,
        (State::OpenConfirm, Event::KeepaliveTimerExpires) => true,
        (State::OpenConfirm, Event::TcpConnectionFails) => true,
        (State::OpenConfirm, Event::BgpHeaderErr) => true,
        (State::OpenConfirm, Event::BgpOpenMsgErr) => true,
        (State::OpenConfirm, Event::NotifMsg) => true,
        (State::OpenConfirm, Event::NotifMsgVerErr) => true,
        (State::OpenConfirm, Event::KeepAliveMsg) => true,
        (State::Established, Event::ManualStop) => true,
        (State::Established, Event::AutomaticStop) => true,
        (State::Established, Event::HoldTimerExpires) => true,
        (State::Established, Event::KeepaliveTimerExpires) => true,
        (State::Established, Event::TcpConnectionFails) => true,
        (State::Established, Event::BgpHeaderErr) => true,
        (State::Established, Event::BgpOpenMsgErr) => true,
        (State::Established, Event::NotifMsg) => true,
        (State::Established, Event::NotifMsgVerErr) => true,
        (State::Established, Event::KeepAliveMsg) => true,
        (State::Established, Event::UpdateMsg) => true,
        (State::Established, Event::UpdateMsgErr) => true,
        _ => false,
    }
}

/// The RFC 4271 section 8.2 transition table for this event set, one row
/// per defined (state, event) pair; every pair the table does not define is
/// `no_op`. Only the transport start action depends on the session mode.
/// Malformed-message and version-error events collapse every non-Idle
/// state to Idle (fail-fast); the ConnectRetryCounter choice is stated per
/// path: the OpenSent malformed-message collapses leave it untouched,
/// version errors leave it untouched outside Established, the other
/// counted failures increment it, and of the start commands only the
/// operator's manual start re-initializes it — an automatic restart keeps
/// the damping history.
pub open spec fn transition(s: State, e: Event, m: Mode) -> Row {
    match s {
        State::Idle => match e {
            // A start command leaves Idle for Connect: arm the
            // ConnectRetryTimer and begin the transport attempt. The
            // operator's manual start initializes the ConnectRetryCounter;
            // an automatic restart keeps it, so repeated failed sessions
            // accumulate toward the configured limit.
            Event::ManualStart => Row {
                next: State::Connect,
                counter: CounterOp::Reset,
                connect_retry: TimerOp::Start(CONNECT_RETRY_TIME),
                hold: TimerOp::Keep,
                keepalive: TimerOp::Keep,
                delay_open: TimerOp::Keep,
                idle_hold: TimerOp::Keep,
                actions: seq![transport_start_action(m)],
            },
            Event::AutomaticStart => Row {
                next: State::Connect,
                counter: CounterOp::Keep,
                connect_retry: TimerOp::Start(CONNECT_RETRY_TIME),
                hold: TimerOp::Keep,
                keepalive: TimerOp::Keep,
                delay_open: TimerOp::Keep,
                idle_hold: TimerOp::Keep,
                actions: seq![transport_start_action(m)],
            },
            // A stop in Idle has no session to tear down; it zeroes the
            // counter and leaves every timer down.
            Event::ManualStop => teardown_row(CounterOp::Reset, Seq::<Action>::empty()),
            _ => no_op(s),
        },
        State::Connect => match e {
            Event::ManualStop => teardown_row(
                CounterOp::Reset,
                seq![Action::DropTcpConnection, Action::ReleaseResources],
            ),
            Event::AutomaticStop => teardown_row(
                CounterOp::Increment,
                seq![Action::DropTcpConnection, Action::ReleaseResources],
            ),
            // Retry the transport attempt and rearm the timer.
            Event::ConnectRetryTimerExpires => Row {
                next: State::Connect,
                counter: CounterOp::Keep,
                connect_retry: TimerOp::Start(CONNECT_RETRY_TIME),
                hold: TimerOp::Keep,
                keepalive: TimerOp::Keep,
                delay_open: TimerOp::Keep,
                idle_hold: TimerOp::Keep,
                actions: seq![Action::DropTcpConnection, transport_start_action(m)],
            },
            // The transport is up: send OPEN and hold the session open on
            // a large initial hold time until one is negotiated.
            Event::TcpCrAcked | Event::TcpConnectionConfirmed => Row {
                next: State::OpenSent,
                counter: CounterOp::Keep,
                connect_retry: TimerOp::Stop,
                hold: TimerOp::Start(LARGE_HOLD_TIME),
                keepalive: TimerOp::Keep,
                delay_open: TimerOp::Keep,
                idle_hold: TimerOp::Keep,
                actions: seq![Action::SendOpen],
            },
            // The attempt failed: wait in Active for the peer, retry on
            // the rearmed ConnectRetryTimer.
            Event::TcpConnectionFails => Row {
                next: State::Active,
                counter: CounterOp::Keep,
                connect_retry: TimerOp::Start(CONNECT_RETRY_TIME),
                hold: TimerOp::Keep,
                keepalive: TimerOp::Keep,
                delay_open: TimerOp::Keep,
                idle_hold: TimerOp::Keep,
                actions: seq![Action::DropTcpConnection],
            },
            // Malformed message content collapses the attempt fail-fast,
            // answered with the matching NOTIFICATION.
            Event::BgpHeaderErr => teardown_row(
                CounterOp::Increment,
                seq![
                    Action::SendNotification(NotificationKind::HeaderError),
                    Action::ReleaseResources,
                    Action::DropTcpConnection,
                    Action::NotifyOperator(s, e),
                ],
            ),
            Event::BgpOpenMsgErr => teardown_row(
                CounterOp::Increment,
                seq![
                    Action::SendNotification(NotificationKind::OpenMessageError),
                    Action::ReleaseResources,
                    Action::DropTcpConnection,
                    Action::NotifyOperator(s, e),
                ],
            ),
            // A version mismatch collapses the attempt without counting it
            // as a connection failure.
            Event::NotifMsgVerErr => teardown_row(
                CounterOp::Keep,
                seq![
                    Action::ReleaseResources,
                    Action::DropTcpConnection,
                    Action::NotifyOperator(s, e),
                ],
            ),
            _ => no_op(s),
        },
        State::Active => match e {
            Event::ManualStop => teardown_row(
                CounterOp::Reset,
                seq![Action::DropTcpConnection, Action::ReleaseResources],
            ),
            Event::AutomaticStop => teardown_row(
                CounterOp::Increment,
                seq![Action::DropTcpConnection, Action::ReleaseResources],
            ),
            // Time to try connecting ourselves again.
            Event::ConnectRetryTimerExpires => Row {
                next: State::Connect,
                counter: CounterOp::Keep,
                connect_retry: TimerOp::Start(CONNECT_RETRY_TIME),
                hold: TimerOp::Keep,
                keepalive: TimerOp::Keep,
                delay_open: TimerOp::Keep,
                idle_hold: TimerOp::Keep,
                actions: seq![transport_start_action(m)],
            },
            Event::TcpCrAcked | Event::TcpConnectionConfirmed => Row {
                next: State::OpenSent,
                counter: CounterOp::Keep,
                connect_retry: TimerOp::Stop,
                hold: TimerOp::Start(LARGE_HOLD_TIME),
                keepalive: TimerOp::Keep,
                delay_open: TimerOp::Keep,
                idle_hold: TimerOp::Keep,
                actions: seq![Action::SendOpen],
            },
            // Here a failure falls back to Idle and counts against the
            // session; a later start command or auto-retry begins anew.
            Event::TcpConnectionFails => teardown_row(
                CounterOp::Increment,
                seq![Action::ReleaseResources, Action::NotifyOperator(s, e)],
            ),
            Event::BgpHeaderErr => teardown_row(
                CounterOp::Increment,
                seq![
                    Action::SendNotification(NotificationKind::HeaderError),
                    Action::ReleaseResources,
                    Action::DropTcpConnection,
                    Action::NotifyOperator(s, e),
                ],
            ),
            Event::BgpOpenMsgErr => teardown_row(
                CounterOp::Increment,
                seq![
                    Action::SendNotification(NotificationKind::OpenMessageError),
                    Action::ReleaseResources,
                    Action::DropTcpConnection,
                    Action::NotifyOperator(s, e),
                ],
            ),
            Event::NotifMsgVerErr => teardown_row(
                CounterOp::Keep,
                seq![
                    Action::ReleaseResources,
                    Action::DropTcpConnection,
                    Action::NotifyOperator(s, e),
                ],
            ),
            _ => no_op(s),
        },
        State::OpenSent => match e {
            Event::ManualStop => teardown_row(
                CounterOp::Reset,
                seq![
                    Action::SendNotification(NotificationKind::Cease),
                    Action::DropTcpConnection,
                    Action::ReleaseResources,
                ],
            ),
            Event::AutomaticStop => teardown_row(
                CounterOp::Increment,
                seq![
                    Action::SendNotification(NotificationKind::Cease),
                    Action::DropTcpConnection,
                    Action::ReleaseResources,
                ],
            ),
            Event::HoldTimerExpires => teardown_row(
                CounterOp::Increment,
                seq![
                    Action::SendNotification(NotificationKind::HoldTimerExpired),
                    Action::ReleaseResources,
                    Action::DropTcpConnection,
                    Action::NotifyOperator(s, e),
                ],
            ),
            // The transport dropped under us before the OPEN exchange was
            // answered: fall back to Active and let the timer retry.
            Event::TcpConnectionFails => Row {
                next: State::Active,
                counter: CounterOp::Keep,
                connect_retry: TimerOp::Start(CONNECT_RETRY_TIME),
                hold: TimerOp::Stop,
                keepalive: TimerOp::Stop,
                delay_open: TimerOp::Keep,
                idle_hold: TimerOp::Keep,
                actions: seq![Action::DropTcpConnection],
            },
            // The peer's OPEN arrived: answer with KEEPALIVE and run the
            // session timers from the negotiated hold time.
            Event::BgpOpen => Row {
                next: State::OpenConfirm,
                counter: CounterOp::Keep,
                connect_retry: TimerOp::Stop,
                hold: hold_start_op(HOLD_TIME),
                keepalive: keepalive_start_op(HOLD_TIME),
                delay_open: TimerOp::Keep,
                idle_hold: TimerOp::Keep,
                actions: seq![Action::SendKeepalive],
            },
            // A malformed message collapses the session; these two paths
            // leave the ConnectRetryCounter untouched.
            Event::BgpHeaderErr => teardown_row(
                CounterOp::Keep,
                seq![
                    Action::SendNotification(NotificationKind::HeaderError),
                    Action::ReleaseResources,
                    Action::DropTcpConnection,
                    Action::NotifyOperator(s, e),
                ],
            ),
            Event::BgpOpenMsgErr => teardown_row(
                CounterOp::Keep,
                seq![
                    Action::SendNotification(NotificationKind::OpenMessageError),
                    Action::ReleaseResources,
                    Action::DropTcpConnection,
                    Action::NotifyOperator(s, e),
                ],
            ),
            Event::NotifMsg => teardown_row(
                CounterOp::Increment,
                seq![
                    Action::ReleaseResources,
                    Action::DropTcpConnection,
                    Action::NotifyOperator(s, e),
                ],
            ),
            Event::NotifMsgVerErr => teardown_row(
                CounterOp::Keep,
                seq![
                    Action::ReleaseResources,
                    Action::DropTcpConnection,
                    Action::NotifyOperator(s, e),
                ],
            ),
            _ => no_op(s),
        },
        State::OpenConfirm => match e {
            Event::ManualStop => teardown_row(
                CounterOp::Reset,
                seq![
                    Action::SendNotification(NotificationKind::Cease),
                    Action::DropTcpConnection,
                    Action::ReleaseResources,
                ],
            ),
            Event::AutomaticStop => teardown_row(
                CounterOp::Increment,
                seq![
                    Action::SendNotification(NotificationKind::Cease),
                    Action::DropTcpConnection,
                    Action::ReleaseResources,
                ],
            ),
            Event::HoldTimerExpires => teardown_row(
                CounterOp::Increment,
                seq![
                    Action::SendNotification(NotificationKind::HoldTimerExpired),
                    Action::ReleaseResources,
                    Action::DropTcpConnection,
                    Action::NotifyOperator(s, e),
                ],
            ),
            // Keep the session alive while waiting for the peer's
            // KEEPALIVE.
            Event::KeepaliveTimerExpires => Row {
                next: State::OpenConfirm,
                counter: CounterOp::Keep,
                connect_retry: TimerOp::Keep,
                hold: TimerOp::Keep,
                keepalive: keepalive_start_op(HOLD_TIME),
                delay_open: TimerOp::Keep,
                idle_hold: TimerOp::Keep,
                actions: seq![Action::SendKeepalive],
            },
            Event::TcpConnectionFails => teardown_row(
                CounterOp::Increment,
                seq![
                    Action::ReleaseResources,
                    Action::DropTcpConnection,
                    Action::NotifyOperator(s, e),
                ],
            ),
            Event::BgpHeaderErr => teardown_row(
                CounterOp::Increment,
                seq![
                    Action::SendNotification(NotificationKind::HeaderError),
                    Action::ReleaseResources,
                    Action::DropTcpConnection,
                    Action::NotifyOperator(s, e),
                ],
            ),
            Event::BgpOpenMsgErr => teardown_row(
                CounterOp::Increment,
                seq![
                    Action::SendNotification(NotificationKind::OpenMessageError),
                    Action::ReleaseResources,
                    Action::DropTcpConnection,
                    Action::NotifyOperator(s, e),
                ],
            ),
            Event::NotifMsg => teardown_row(
                CounterOp::Increment,
                seq![
                    Action::ReleaseResources,
                    Action::DropTcpConnection,
                    Action::NotifyOperator(s, e),
                ],
            ),
            Event::NotifMsgVerErr => teardown_row(
                CounterOp::Keep,
                seq![
                    Action::ReleaseResources,
                    Action::DropTcpConnection,
                    Action::NotifyOperator(s, e),
                ],
            ),
            // The peer confirmed: the session is Established, held open by
            // the refreshed HoldTimer.
            Event::KeepAliveMsg => Row {
                next: State::Established,
                counter: CounterOp::Keep,
                connect_retry: TimerOp::Keep,
                hold: hold_start_op(HOLD_TIME),
                keepalive: TimerOp::Keep,
                delay_open: TimerOp::Keep,
                idle_hold: TimerOp::Keep,
                actions: Seq::<Action>::empty(),
            },
            _ => no_op(s),
        },
        State::Established => match e {
            Event::ManualStop => teardown_row(
                CounterOp::Reset,
                seq![
                    Action::SendNotification(NotificationKind::Cease),
                    Action::DropTcpConnection,
                    Action::ReleaseResources,
                ],
            ),
            Event::AutomaticStop => teardown_row(
                CounterOp::Increment,
                seq![
                    Action::SendNotification(NotificationKind::Cease),
                    Action::DropTcpConnection,
                    Action::ReleaseResources,
                ],
            ),
            Event::HoldTimerExpires => teardown_row(
                CounterOp::Increment,
                seq![
                    Action::SendNotification(NotificationKind::HoldTimerExpired),
                    Action::ReleaseResources,
                    Action::DropTcpConnection,
                    Action::NotifyOperator(s, e),
                ],
            ),
            Event::KeepaliveTimerExpires => Row {
                next: State::Established,
                counter: CounterOp::Keep,
                connect_retry: TimerOp::Keep,
                hold: TimerOp::Keep,
                keepalive: keepalive_start_op(HOLD_TIME),
                delay_open: TimerOp::Keep,
                idle_hold: TimerOp::Keep,
                actions: seq![Action::SendKeepalive],
            },
            Event::TcpConnectionFails => teardown_row(
                CounterOp::Increment,
                seq![
                    Action::ReleaseResources,
                    Action::DropTcpConnection,
                    Action::NotifyOperator(s, e),
                ],
            ),
            // Malformed message content in a running session collapses it
            // fail-fast, answered with the matching NOTIFICATION.
            Event::BgpHeaderErr => teardown_row(
                CounterOp::Increment,
                seq![
                    Action::SendNotification(NotificationKind::HeaderError),
                    Action::ReleaseResources,
                    Action::DropTcpConnection,
                    Action::NotifyOperator(s, e),
                ],
            ),
            Event::BgpOpenMsgErr => teardown_row(
                CounterOp::Increment,
                seq![
                    Action::SendNotification(NotificationKind::OpenMessageError),
                    Action::ReleaseResources,
                    Action::DropTcpConnection,
                    Action::NotifyOperator(s, e),
                ],
            ),
            Event::NotifMsg => teardown_row(
                CounterOp::Increment,
                seq![
                    Action::ReleaseResources,
                    Action::DropTcpConnection,
                    Action::NotifyOperator(s, e),
                ],
            ),
            Event::NotifMsgVerErr => teardown_row(
                CounterOp::Increment,
                seq![
                    Action::ReleaseResources,
                    Action::DropTcpConnection,
                    Action::NotifyOperator(s, e),
                ],
            ),
            // Liveness from the peer refreshes the HoldTimer.
            Event::KeepAliveMsg => Row {
                next: State::Established,
                counter: CounterOp::Keep,
                connect_retry: TimerOp::Keep,
                hold: hold_start_op(HOLD_TIME),
                keepalive: TimerOp::Keep,
                delay_open: TimerOp::Keep,
                idle_hold: TimerOp::Keep,
                actions: Seq::<Action>::empty(),
            },
            // Routing content is handed to the RIB collaborator; this core
            // never interprets it.
            Event::UpdateMsg => Row {
                next: State::Established,
                counter: CounterOp::Keep,
                connect_retry: TimerOp::Keep,
                hold: hold_start_op(HOLD_TIME),
                keepalive: TimerOp::Keep,
                delay_open: TimerOp::Keep,
                idle_hold: TimerOp::Keep,
                actions: seq![Action::ForwardUpdateToRib],
            },
            Event::UpdateMsgErr => teardown_row(
                CounterOp::Increment,
                seq![
                    Action::SendNotification(NotificationKind::UpdateMessageError),
                    Action::ReleaseResources,
                    Action::DropTcpConnection,
                    Action::NotifyOperator(s, e),
                ],
            ),
            _ => no_op(s),
        },
    }
}

/// Any (state, event) pair the table does not define is an idempotent
/// no-op: the event is consumed, the state is unchanged, nothing is
/// emitted, and neither a timer nor the counter moves.
pub proof fn lemma_undefined_pair_is_no_op(s: State, e: Event, m: Mode)
    requires
        !is_defined(s, e),
    ensures
        transition(s, e, m) == no_op(s),
{
}

/// A start command fires exactly from Idle: there it yields Connect, while
/// in every other state a re-enqueued start is consumed as a no-op, so one
/// start command yields Connect at most once until the machine returns to
/// Idle.
pub proof fn lemma_start_fires_only_from_idle(s: State, m: Mode)
    ensures
        transition(State::Idle, Event::ManualStart, m).next == State::Connect,
        transition(State::Idle, Event::AutomaticStart, m).next == State::Connect,
        s != State::Idle ==> transition(s, Event::ManualStart, m) == no_op(s),
        s != State::Idle ==> transition(s, Event::AutomaticStart, m) == no_op(s),
{
}

/// A manual stop is defined in every state, always lands in Idle with
/// every timer down, and always zeroes the ConnectRetryCounter.
pub proof fn lemma_manual_stop_lands_in_idle(s: State, m: Mode)
    ensures
        is_defined(s, Event::ManualStop),
        transition(s, Event::ManualStop, m).next == State::Idle,
        transition(s, Event::ManualStop, m).counter == CounterOp::Reset,
        transition(s, Event::ManualStop, m).connect_retry == TimerOp::Stop,
        transition(s, Event::ManualStop, m).hold == TimerOp::Stop,
        transition(s, Event::ManualStop, m).keepalive == TimerOp::Stop,
{
}

/// Fail-fast collapse: an event reporting malformed message content or a
/// version mismatch drives every non-Idle state to Idle in one step, with
/// the session's resources released; malformed content is answered with
/// the matching NOTIFICATION as the first side effect.
pub proof fn lemma_protocol_error_collapses_to_idle(s: State, e: Event, m: Mode)
    requires
        s != State::Idle,
        e == Event::BgpHeaderErr || e == Event::BgpOpenMsgErr || e == Event::NotifMsgVerErr,
    ensures
        transition(s, e, m).next == State::Idle,
        transition(s, e, m).connect_retry == TimerOp::Stop,
        transition(s, e, m).hold == TimerOp::Stop,
        transition(s, e, m).keepalive == TimerOp::Stop,
        transition(s, e, m).actions.len() > 0,
        e == Event::BgpHeaderErr ==> transition(s, e, m).actions[0] == Action::SendNotification(
            NotificationKind::HeaderError,
        ),
        e == Event::BgpOpenMsgErr ==> transition(s, e, m).actions[0] == Action::SendNotification(
            NotificationKind::OpenMessageError,
        ),
{
}

} // verus!
