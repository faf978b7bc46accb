use bgpspeaker::config::Config;
use bgpspeaker::config::Mode;
use bgpspeaker::event::Event;
use bgpspeaker::event_queue::EventQueue;
use bgpspeaker::peer::Peer;
use bgpspeaker::state::State;
use bgpspeaker::table::Action;
use bgpspeaker::table::NotificationKind;
use bgpspeaker::table::CONNECT_RETRY_LIMIT;
use bgpspeaker::table::CONNECT_RETRY_TIME;
use bgpspeaker::table::HOLD_TIME;
use bgpspeaker::table::LARGE_HOLD_TIME;
use bgpspeaker::timer::Timer;

fn active_peer() -> Peer {
    let config: Config = "64512 127.0.0.1 65413 127.0.0.2 active".parse().unwrap();
    Peer::new(config)
}

/// Drives a fresh active-mode peer into the Established state.
fn established_peer() -> Peer {
    let mut peer = active_peer();
    peer.start();
    peer.next();
    peer.enqueue_event(Event::TcpConnectionConfirmed);
    peer.next();
    peer.enqueue_event(Event::BgpOpen);
    peer.next();
    peer.enqueue_event(Event::KeepAliveMsg);
    peer.next();
    assert_eq!(peer.state(), State::Established);
    peer
}

#[test]
fn peer_can_transition_to_connect_state() {
    let config: Config = "64512 127.0.0.1 65413 127.0.0.2 active".parse().unwrap();
    let mut peer = Peer::new(config);
    peer.start();
    peer.next();
    assert_eq!(peer.state(), State::Connect);
}

#[test]
fn event_queue_is_fifo() {
    let mut q = EventQueue::new();
    assert_eq!(q.len(), 0);
    assert_eq!(q.dequeue(), None);
    q.enqueue(Event::ManualStart);
    q.enqueue(Event::TcpConnectionConfirmed);
    q.enqueue(Event::ManualStart);
    assert_eq!(q.len(), 3);
    assert_eq!(q.dequeue(), Some(Event::ManualStart));
    assert_eq!(q.dequeue(), Some(Event::TcpConnectionConfirmed));
    assert_eq!(q.dequeue(), Some(Event::ManualStart));
    assert_eq!(q.dequeue(), None);
}

#[test]
fn manual_start_connects_and_arms_the_retry_timer() {
    let mut peer = active_peer();
    peer.start();
    assert_eq!(peer.pending_events(), 1);
    let step = peer.next().unwrap();
    assert_eq!(step.event, Event::ManualStart);
    assert_eq!(step.from, State::Idle);
    assert_eq!(step.to, State::Connect);
    assert_eq!(step.actions, vec![Action::InitiateTcpConnection]);
    assert_eq!(peer.state(), State::Connect);
    assert_eq!(peer.connect_retry_counter(), 0);
    assert!(peer.connect_retry_timer().running);
    assert_eq!(peer.connect_retry_timer().interval, CONNECT_RETRY_TIME);
}

#[test]
fn passive_mode_listens_instead_of_dialing() {
    let config: Config = "64512 127.0.0.1 65413 127.0.0.2 passive".parse().unwrap();
    let mut peer = Peer::new(config);
    peer.start();
    let step = peer.next().unwrap();
    assert_eq!(step.to, State::Connect);
    assert_eq!(step.actions, vec![Action::ListenForTcpConnection]);
}

#[test]
fn repeated_manual_start_is_a_no_op_past_idle() {
    let mut peer = active_peer();
    peer.start();
    peer.next();
    assert_eq!(peer.state(), State::Connect);
    peer.start();
    peer.start();
    let first = peer.next().unwrap();
    assert_eq!(first.from, State::Connect);
    assert_eq!(first.to, State::Connect);
    assert_eq!(first.actions, Vec::new());
    let second = peer.next().unwrap();
    assert_eq!(second.to, State::Connect);
    assert_eq!(second.actions, Vec::new());
    assert!(peer.connect_retry_timer().running);
}

#[test]
fn next_on_an_empty_queue_does_nothing() {
    let mut peer = active_peer();
    assert!(peer.next().is_none());
    assert_eq!(peer.state(), State::Idle);
    assert_eq!(peer.pending_events(), 0);
}

#[test]
fn irrelevant_events_are_consumed_without_a_transition() {
    let mut peer = active_peer();
    peer.enqueue_event(Event::UpdateMsg);
    peer.enqueue_event(Event::HoldTimerExpires);
    let step = peer.next().unwrap();
    assert_eq!(step.from, State::Idle);
    assert_eq!(step.to, State::Idle);
    assert_eq!(step.actions, Vec::new());
    let step = peer.next().unwrap();
    assert_eq!(step.to, State::Idle);
    assert_eq!(step.actions, Vec::new());
    assert_eq!(peer.pending_events(), 0);
    assert_eq!(peer.connect_retry_counter(), 0);
}

#[test]
fn confirmed_transport_sends_open_and_holds_the_session() {
    let mut peer = active_peer();
    peer.start();
    peer.next();
    peer.enqueue_event(Event::TcpConnectionConfirmed);
    let step = peer.next().unwrap();
    assert_eq!(step.to, State::OpenSent);
    assert_eq!(step.actions, vec![Action::SendOpen]);
    assert!(!peer.connect_retry_timer().running);
    assert!(peer.hold_timer().running);
    assert_eq!(peer.hold_timer().interval, LARGE_HOLD_TIME);
}

#[test]
fn open_msg_err_in_open_sent_collapses_with_a_notification() {
    let mut peer = active_peer();
    peer.start();
    peer.next();
    peer.enqueue_event(Event::TcpConnectionConfirmed);
    peer.next();
    assert_eq!(peer.state(), State::OpenSent);
    let counter_before = peer.connect_retry_counter();
    peer.enqueue_event(Event::BgpOpenMsgErr);
    let step = peer.next().unwrap();
    assert_eq!(step.from, State::OpenSent);
    assert_eq!(step.to, State::Idle);
    assert_eq!(
        step.actions[0],
        Action::SendNotification(NotificationKind::OpenMessageError)
    );
    assert_eq!(peer.state(), State::Idle);
    assert_eq!(peer.connect_retry_counter(), counter_before);
    assert!(!peer.hold_timer().running);
}

#[test]
fn bgp_open_reaches_open_confirm_with_session_timers() {
    let mut peer = active_peer();
    peer.start();
    peer.next();
    peer.enqueue_event(Event::TcpConnectionConfirmed);
    peer.next();
    peer.enqueue_event(Event::BgpOpen);
    let step = peer.next().unwrap();
    assert_eq!(step.to, State::OpenConfirm);
    assert_eq!(step.actions, vec![Action::SendKeepalive]);
    assert!(peer.hold_timer().running);
    assert_eq!(peer.hold_timer().interval, HOLD_TIME);
    assert!(peer.keepalive_timer().running);
    assert_eq!(peer.keepalive_timer().interval, HOLD_TIME / 3);
    assert!(!peer.connect_retry_timer().running);
}

#[test]
fn hold_timer_expiry_in_established_notifies_and_counts() {
    let mut peer = established_peer();
    assert_eq!(peer.connect_retry_counter(), 0);
    peer.enqueue_event(Event::HoldTimerExpires);
    let step = peer.next().unwrap();
    assert_eq!(step.from, State::Established);
    assert_eq!(step.to, State::Idle);
    assert_eq!(
        step.actions[0],
        Action::SendNotification(NotificationKind::HoldTimerExpired)
    );
    assert!(step
        .actions
        .contains(&Action::NotifyOperator(State::Established, Event::HoldTimerExpires)));
    assert_eq!(peer.state(), State::Idle);
    assert_eq!(peer.connect_retry_counter(), 1);
    assert!(!peer.hold_timer().running);
    assert!(!peer.keepalive_timer().running);
}

#[test]
fn updates_refresh_the_hold_timer_and_reach_the_rib() {
    let mut peer = established_peer();
    peer.enqueue_event(Event::UpdateMsg);
    let step = peer.next().unwrap();
    assert_eq!(step.to, State::Established);
    assert_eq!(step.actions, vec![Action::ForwardUpdateToRib]);
    assert!(peer.hold_timer().running);
    assert_eq!(peer.hold_timer().interval, HOLD_TIME);
}

#[test]
fn connection_failure_in_connect_falls_back_to_active() {
    let mut peer = active_peer();
    peer.start();
    peer.next();
    peer.enqueue_event(Event::TcpConnectionFails);
    let step = peer.next().unwrap();
    assert_eq!(step.to, State::Active);
    assert_eq!(step.actions, vec![Action::DropTcpConnection]);
    assert!(peer.connect_retry_timer().running);
    assert_eq!(peer.connect_retry_counter(), 0);
}

#[test]
fn manual_stop_in_established_ceases_and_resets_the_counter() {
    let mut peer = established_peer();
    peer.enqueue_event(Event::HoldTimerExpires);
    peer.next();
    assert_eq!(peer.connect_retry_counter(), 1);
    peer.start();
    peer.next();
    peer.enqueue_event(Event::TcpConnectionConfirmed);
    peer.next();
    peer.enqueue_event(Event::ManualStop);
    let step = peer.next().unwrap();
    assert_eq!(step.from, State::OpenSent);
    assert_eq!(step.to, State::Idle);
    assert_eq!(step.actions[0], Action::SendNotification(NotificationKind::Cease));
    assert_eq!(peer.connect_retry_counter(), 0);
    assert!(!peer.connect_retry_timer().running);
}

#[test]
fn automatic_start_also_connects() {
    let mut peer = active_peer();
    peer.enqueue_event(Event::AutomaticStart);
    let step = peer.next().unwrap();
    assert_eq!(step.from, State::Idle);
    assert_eq!(step.to, State::Connect);
    assert_eq!(step.actions, vec![Action::InitiateTcpConnection]);
}

#[test]
fn active_state_still_answers_a_confirmed_transport() {
    let mut peer = active_peer();
    peer.start();
    peer.next();
    peer.enqueue_event(Event::TcpConnectionFails);
    peer.next();
    assert_eq!(peer.state(), State::Active);
    peer.enqueue_event(Event::TcpConnectionConfirmed);
    let step = peer.next().unwrap();
    assert_eq!(step.to, State::OpenSent);
    assert_eq!(step.actions, vec![Action::SendOpen]);
}

#[test]
fn config_accessor_returns_the_parsed_line() {
    let peer = active_peer();
    let c = peer.config();
    assert_eq!(c.local_as, 64512);
    assert_eq!(c.peer_as, 65413);
    assert_eq!(c.mode, Mode::Active);
}

#[test]
fn header_err_in_established_collapses_with_notification() {
    let mut peer = established_peer();
    peer.enqueue_event(Event::BgpHeaderErr);
    let step = peer.next().unwrap();
    assert_eq!(step.from, State::Established);
    assert_eq!(step.to, State::Idle);
    assert_eq!(
        step.actions[0],
        Action::SendNotification(NotificationKind::HeaderError)
    );
    assert!(step
        .actions
        .contains(&Action::NotifyOperator(State::Established, Event::BgpHeaderErr)));
    assert_eq!(peer.state(), State::Idle);
    assert_eq!(peer.connect_retry_counter(), 1);
    assert!(!peer.hold_timer().running);
    assert!(!peer.keepalive_timer().running);
}

#[test]
fn open_msg_err_in_connect_collapses_with_notification() {
    let mut peer = active_peer();
    peer.start();
    peer.next();
    assert_eq!(peer.state(), State::Connect);
    peer.enqueue_event(Event::BgpOpenMsgErr);
    let step = peer.next().unwrap();
    assert_eq!(step.to, State::Idle);
    assert_eq!(
        step.actions[0],
        Action::SendNotification(NotificationKind::OpenMessageError)
    );
    assert_eq!(peer.connect_retry_counter(), 1);
    assert!(!peer.connect_retry_timer().running);
}

#[test]
fn failures_past_the_retry_limit_alert_the_operator() {
    let mut peer = active_peer();
    let mut last_actions = Vec::new();
    for round in 0..CONNECT_RETRY_LIMIT + 1 {
        peer.enqueue_event(Event::AutomaticStart);
        peer.next();
        peer.enqueue_event(Event::TcpConnectionFails);
        peer.next();
        assert_eq!(peer.state(), State::Active);
        peer.enqueue_event(Event::TcpConnectionFails);
        let step = peer.next().unwrap();
        assert_eq!(step.to, State::Idle);
        assert_eq!(peer.connect_retry_counter(), round + 1);
        last_actions = step.actions;
    }
    assert_eq!(peer.connect_retry_counter(), CONNECT_RETRY_LIMIT + 1);
    assert_eq!(
        last_actions,
        vec![
            Action::ReleaseResources,
            Action::NotifyOperator(State::Active, Event::TcpConnectionFails),
            Action::AlertRetryLimitExceeded,
        ]
    );
    peer.start();
    peer.next();
    assert_eq!(peer.state(), State::Connect);
    assert_eq!(peer.connect_retry_counter(), 0);
}

#[test]
fn failures_under_the_retry_limit_do_not_alert() {
    let mut peer = active_peer();
    peer.start();
    peer.next();
    peer.enqueue_event(Event::TcpConnectionFails);
    peer.next();
    peer.enqueue_event(Event::TcpConnectionFails);
    let step = peer.next().unwrap();
    assert_eq!(peer.connect_retry_counter(), 1);
    assert!(!step.actions.contains(&Action::AlertRetryLimitExceeded));
}

#[test]
fn delay_open_and_idle_hold_timers_never_run() {
    let mut peer = established_peer();
    assert!(!peer.delay_open_timer().running);
    assert!(!peer.idle_hold_timer().running);
    peer.enqueue_event(Event::DelayOpenTimerExpires);
    peer.enqueue_event(Event::IdleHoldTimerExpires);
    let step = peer.next().unwrap();
    assert_eq!(step.to, State::Established);
    assert_eq!(step.actions, Vec::new());
    let step = peer.next().unwrap();
    assert_eq!(step.to, State::Established);
    assert_eq!(step.actions, Vec::new());
}

#[test]
fn timers_start_stop_and_reset() {
    let mut t = Timer::stopped();
    assert!(!t.running);
    t.start(90);
    assert!(t.running);
    assert_eq!(t.interval, 90);
    t.reset(30);
    assert!(t.running);
    assert_eq!(t.interval, 30);
    t.stop();
    assert!(!t.running);
    assert_eq!(t.interval, 0);
}

#[test]
fn retry_timer_expiry_in_connect_redials() {
    let mut peer = active_peer();
    peer.start();
    peer.next();
    peer.enqueue_event(Event::ConnectRetryTimerExpires);
    let step = peer.next().unwrap();
    assert_eq!(step.to, State::Connect);
    assert_eq!(
        step.actions,
        vec![Action::DropTcpConnection, Action::InitiateTcpConnection]
    );
    assert!(peer.connect_retry_timer().running);
}
