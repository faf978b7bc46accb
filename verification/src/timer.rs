use vstd::prelude::*;

verus! {

/// One countdown owned by a peer (ConnectRetry, Hold, or Keepalive). The
/// core models a timer by whether it is running and the interval it was last
/// started with; real time lives outside the core, which only decides when a
/// timer starts and stops. On expiry the outside scheduler enqueues the
/// timer's bound event into the owning peer's queue.
#[derive(Clone, Copy, Debug, PartialEq, Eq, Structural)]
pub struct Timer {
    pub running: bool,
    pub interval: u64,
}

/// A command of the transition table on one timer.
#[derive(Clone, Copy, Debug, PartialEq, Eq, Structural)]
pub enum TimerOp {
    Keep,
    Start(u64),
    Stop,
}

/// The timer a command leaves behind.
pub open spec fn timer_after(t: Timer, op: TimerOp) -> Timer {
    match op {
        TimerOp::Keep => t,
        TimerOp::Start(v) => Timer { running: true, interval: v },
        TimerOp::Stop => Timer { running: false, interval: 0 },
    }
}

impl Timer {
    /// A timer that is not counting down.
    pub fn stopped() -> (t: Timer)
        ensures
            t == (Timer { running: false, interval: 0 }),
    {
        Timer { running: false, interval: 0 }
    }

    /// Begins (or restarts) the countdown from `interval`.
    pub fn start(&mut self, interval: u64)
        ensures
            *final(self) == (Timer { running: true, interval: interval }),
    {
        self.running = true;
        self.interval = interval;
    }

    /// Cancels the countdown; a stopped timer never fires.
    pub fn stop(&mut self)
        ensures
            *final(self) == (Timer { running: false, interval: 0 }),
    {
        self.running = false;
        self.interval = 0;
    }

    /// Restarts the countdown from `interval`; same outcome as `start`.
    pub fn reset(&mut self, interval: u64)
        ensures
            *final(self) == (Timer { running: true, interval: interval }),
    {
        self.start(interval);
    }

    /// Applies one table command to this timer.
    pub fn apply(&mut self, op: TimerOp)
        ensures
            *final(self) == timer_after(*old(self), op),
    {
        match op {
            TimerOp::Keep => {}
            TimerOp::Start(v) => self.start(v),
            TimerOp::Stop => self.stop(),
        }
    }
}

} // verus!
