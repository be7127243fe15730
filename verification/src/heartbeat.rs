use vstd::prelude::*;

verus! {

/// Whether the heartbeat task is still looping, was cancelled by its owner,
/// or stopped because a liveness delivery failed.
#[derive(Clone, Copy, PartialEq, Eq, Structural, Debug)]
pub enum HeartbeatStatus {
    Running,
    Cancelled,
    Failed,
}

/// What the heartbeat task observes at a tick boundary: the cancellation
/// signal, a successful ping delivery, or a failed delivery with its cause.
pub enum HeartbeatEvent {
    CancelObserved,
    Delivered,
    DeliveryFailed { cause: String },
}

/// Model of the cancellable periodic liveness task. `pings` counts delivered
/// pings; the task stops forever once it leaves `Running`. Cancellation is
/// distinct from a delivery failure: only the latter records a fault.
pub struct HeartbeatTask {
    pub interval: u64,
    pub pings: u64,
    pub status: HeartbeatStatus,
    pub fault: Option<String>,
}

impl HeartbeatTask {
    pub open spec fn wf(self) -> bool {
        &&& self.interval > 0
        &&& (self.fault is Some <==> self.status is Failed)
    }

    /// One tick boundary: a running task delivers exactly one ping per
    /// delivered tick, stops without pinging when cancelled, and stops with
    /// the recorded cause when a delivery fails. A stopped task never changes.
    pub open spec fn step_spec(self, ev: HeartbeatEvent) -> HeartbeatTask {
        if !(self.status is Running) {
            self
        } else {
            match ev {
                HeartbeatEvent::CancelObserved => HeartbeatTask {
                    interval: self.interval,
                    pings: self.pings,
                    status: HeartbeatStatus::Cancelled,
                    fault: self.fault,
                },
                HeartbeatEvent::Delivered => HeartbeatTask {
                    interval: self.interval,
                    pings: (self.pings + 1) as u64,
                    status: HeartbeatStatus::Running,
                    fault: self.fault,
                },
                HeartbeatEvent::DeliveryFailed { cause } => HeartbeatTask {
                    interval: self.interval,
                    pings: self.pings,
                    status: HeartbeatStatus::Failed,
                    fault: Some(cause),
                },
            }
        }
    }

    /// The task a sequence of tick-boundary events leaves behind.
    pub open spec fn run_spec(self, evs: Seq<HeartbeatEvent>) -> HeartbeatTask
        decreases evs.len(),
    {
        if evs.len() == 0 {
            self
        } else {
            self.step_spec(evs[0]).run_spec(evs.skip(1))
        }
    }

    pub fn new(interval: u64) -> (t: HeartbeatTask)
        requires
            interval > 0,
        ensures
            t.wf(),
            t.interval == interval,
            t.pings == 0,
            t.status is Running,
            t.fault is None,
    {
        HeartbeatTask { interval, pings: 0, status: HeartbeatStatus::Running, fault: None }
    }

    pub fn status(&self) -> (s: HeartbeatStatus)
        ensures
            s == self.status,
    {
        self.status
    }

    pub fn pings(&self) -> (p: u64)
        ensures
            p == self.pings,
    {
        self.pings
    }

    /// Advance the task across one tick boundary.
    pub fn on_tick_boundary(&mut self, ev: HeartbeatEvent)
        requires
            old(self).wf(),
            old(self).pings < u64::MAX,
        ensures
            *final(self) == old(self).step_spec(ev),
            final(self).wf(),
    {
        match self.status {
            HeartbeatStatus::Running => {
                match ev {
                    HeartbeatEvent::CancelObserved => {
                        self.status = HeartbeatStatus::Cancelled;
                    },
                    HeartbeatEvent::Delivered => {
                        self.pings = self.pings + 1;
                    },
                    HeartbeatEvent::DeliveryFailed { cause } => {
                        self.status = HeartbeatStatus::Failed;
                        self.fault = Some(cause);
                    },
                }
            },
            _ => {},
        }
    }
}

/// A task that is never cancelled and whose sink never fails delivers exactly
/// one ping per tick: after any run of delivered ticks it is still running and
/// its ping count has grown by exactly the number of ticks.
pub proof fn lemma_steady_pings(t: HeartbeatTask, evs: Seq<HeartbeatEvent>)
    requires
        t.status is Running,
        forall|i: int| 0 <= i < evs.len() ==> evs[i] is Delivered,
        t.pings + evs.len() <= u64::MAX,
    ensures
        t.run_spec(evs).status is Running,
        t.run_spec(evs).pings == t.pings + evs.len(),
        t.run_spec(evs).interval == t.interval,
    decreases evs.len(),
{
    if evs.len() > 0 {
        let t1 = t.step_spec(evs[0]);
        lemma_steady_pings(t1, evs.skip(1));
    }
}

/// A task that has stopped (cancelled or failed) is frozen: no further event
/// changes it, so in particular no further ping is ever sent.
pub proof fn lemma_stopped_task_is_frozen(t: HeartbeatTask, evs: Seq<HeartbeatEvent>)
    requires
        !(t.status is Running),
    ensures
        t.run_spec(evs) == t,
    decreases evs.len(),
{
    if evs.len() > 0 {
        lemma_stopped_task_is_frozen(t.step_spec(evs[0]), evs.skip(1));
    }
}

/// Once cancellation is observed, the task terminates at that very tick
/// boundary, sends no further ping, and ends cancelled, not failed.
pub proof fn lemma_cancellation_is_final(t: HeartbeatTask, evs: Seq<HeartbeatEvent>)
    requires
        t.status is Running,
        evs.len() > 0,
        evs[0] is CancelObserved,
    ensures
        t.run_spec(evs).status is Cancelled,
        t.run_spec(evs).pings == t.pings,
        t.run_spec(evs).fault == t.fault,
{
    let t1 = t.step_spec(evs[0]);
    lemma_stopped_task_is_frozen(t1, evs.skip(1));
}

} // verus!
