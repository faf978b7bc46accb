use vstd::prelude::*;

verus! {

/// The stimuli the session state machine reacts to, per RFC 4271 section
/// 8.1, grouped by origin: administrative commands, timer expiries,
/// transport notifications, and arrivals of decoded BGP messages. Events are
/// immutable value objects compared by kind alone; the transport layer hands
/// a message arrival to the machine already reduced to its kind, so the
/// machine never inspects message bytes itself.
#[derive(Clone, Copy, Debug, PartialEq, Eq, Hash, Structural)]
pub enum Event {
    ManualStart,
    ManualStop,
    AutomaticStart,
    AutomaticStop,
    ConnectRetryTimerExpires,
    HoldTimerExpires,
    KeepaliveTimerExpires,
    DelayOpenTimerExpires,
    IdleHoldTimerExpires,
    TcpConnectionValid,
    TcpCrAcked,
    TcpConnectionConfirmed,
    TcpConnectionFails,
    BgpOpen,
    BgpHeaderErr,
    BgpOpenMsgErr,
    NotifMsgVerErr,
    NotifMsg,
    KeepAliveMsg,
    UpdateMsg,
    UpdateMsgErr,
}

} // verus!
