use vstd::prelude::*;
use crate::labels::Label;

verus! {

/// The lifecycle a managed instance moves through, in reporting order.
#[derive(Clone, Copy, PartialEq, Eq, Structural, Debug)]
pub enum LifecycleState {
    Starting,
    Ready,
    Reserved,
    Active,
    ShuttingDown,
    Terminated,
}

impl LifecycleState {
    /// Position of a state in the fixed reporting order.
    pub open spec fn index(self) -> int {
        match self {
            LifecycleState::Starting => 0,
            LifecycleState::Ready => 1,
            LifecycleState::Reserved => 2,
            LifecycleState::Active => 3,
            LifecycleState::ShuttingDown => 4,
            LifecycleState::Terminated => 5,
        }
    }
}

/// The fixed order in which lifecycle states are entered.
pub open spec fn canonical_order() -> Seq<LifecycleState> {
    seq![
        LifecycleState::Starting,
        LifecycleState::Ready,
        LifecycleState::Reserved,
        LifecycleState::Active,
        LifecycleState::ShuttingDown,
        LifecycleState::Terminated,
    ]
}

/// The step of the startup/shutdown sequence the driver is waiting to finish.
#[derive(Clone, Copy, PartialEq, Eq, Structural, Debug)]
pub enum Step {
    Connect,
    StartHeartbeat,
    AttachLabel,
    MarkReady,
    Reserve,
    Settle,
    ActivateLabel,
    FirstCorrelationLabel,
    SecondCorrelationLabel,
    PollStatus,
    Operate,
    CancelHeartbeat,
    SignalShutdown,
    Done,
}

impl Step {
    /// Position of a step in the strictly sequential run.
    pub open spec fn index(self) -> int {
        match self {
            Step::Connect => 0,
            Step::StartHeartbeat => 1,
            Step::AttachLabel => 2,
            Step::MarkReady => 3,
            Step::Reserve => 4,
            Step::Settle => 5,
            Step::ActivateLabel => 6,
            Step::FirstCorrelationLabel => 7,
            Step::SecondCorrelationLabel => 8,
            Step::PollStatus => 9,
            Step::Operate => 10,
            Step::CancelHeartbeat => 11,
            Step::SignalShutdown => 12,
            Step::Done => 13,
        }
    }
}

/// How the outside world answers the driver's current action: the action
/// finished, or the controller call failed with a descriptive cause.
pub enum Event {
    Completed,
    Failed { cause: String },
}

/// What the driver asks its caller to perform next. Controller calls and
/// timer waits suspend; the caller reports back with an `Event`.
pub enum Action {
    Connect,
    StartHeartbeat { interval: u64 },
    SetLabel(Label),
    SetCorrelationLabel,
    MarkReady,
    Reserve { window: u64 },
    Wait { duration: u64 },
    GetStatus,
    CancelHeartbeat,
    SignalShutdown,
    Finish,
}

/// How a finished run ended: clean termination, or the step that failed with
/// the cause the controller call reported.
pub enum DriverOutcome {
    Success,
    Failure { step: Step, cause: String },
}

/// Durations are logical time units; ticks count the bounded operating loop.
pub struct DriverConfig {
    pub heartbeat_interval: u64,
    pub reservation_window: u64,
    pub settle_wait: u64,
    pub tick_duration: u64,
    pub total_ticks: u64,
}

impl DriverConfig {
    pub open spec fn wf(self) -> bool {
        &&& self.heartbeat_interval > 0
        &&& self.reservation_window > 0
        &&& self.total_ticks > 0
        &&& self.settle_wait >= self.reservation_window
        &&& self.settle_wait + self.tick_duration * self.total_ticks <= u64::MAX
    }

    /// The standard cadence: 2-unit heartbeats, a 5-unit reservation window,
    /// a 6-unit settle wait, and 1000 operating ticks of 10 units each.
    pub fn standard() -> (c: DriverConfig)
        ensures
            c.wf(),
            c.heartbeat_interval == 2,
            c.reservation_window == 5,
            c.settle_wait == 6,
            c.tick_duration == 10,
            c.total_ticks == 1000,
    {
        DriverConfig {
            heartbeat_interval: 2,
            reservation_window: 5,
            settle_wait: 6,
            tick_duration: 10,
            total_ticks: 1000,
        }
    }
}

/// The lifecycle driver: a strictly sequential state machine. The caller asks
/// `next_action`, performs it, and reports the result through `on_event`;
/// `now` is the logical clock the configured waits advance.
pub struct LifecycleDriver {
    pub config: DriverConfig,
    pub step: Step,
    pub state: LifecycleState,
    pub now: u64,
    pub reserved_at: u64,
    pub ticks_done: u64,
    pub heartbeat_running: bool,
    pub heartbeat_cancelled: bool,
    pub outcome: Option<DriverOutcome>,
    pub history: Ghost<Seq<LifecycleState>>,
}

impl LifecycleDriver {
    /// The lifecycle state held while a given live step is pending.
    pub open spec fn state_at(step: Step) -> LifecycleState {
        match step {
            Step::Connect | Step::StartHeartbeat | Step::AttachLabel | Step::MarkReady
                => LifecycleState::Starting,
            Step::Reserve => LifecycleState::Ready,
            Step::Settle | Step::ActivateLabel => LifecycleState::Reserved,
            Step::FirstCorrelationLabel | Step::SecondCorrelationLabel | Step::PollStatus
                | Step::Operate => LifecycleState::Active,
            Step::CancelHeartbeat | Step::SignalShutdown => LifecycleState::ShuttingDown,
            Step::Done => LifecycleState::Terminated,
        }
    }

    /// Logical time the remaining waits can still add to the clock.
    pub open spec fn remaining_budget(self) -> int {
        (if self.step.index() <= Step::Settle.index() && self.outcome is None {
            self.config.settle_wait as int
        } else {
            0
        }) + self.config.tick_duration * (self.config.total_ticks - self.ticks_done)
    }

    pub open spec fn wf(self) -> bool {
        &&& self.config.wf()
        &&& self.history@ == canonical_order().take(self.state.index() + 1)
        &&& self.ticks_done <= self.config.total_ticks
        &&& self.now + self.remaining_budget() <= u64::MAX
        &&& (self.state.index() >= LifecycleState::ShuttingDown.index() ==> self.ticks_done
            == self.config.total_ticks)
        &&& match self.outcome {
            Option::None => {
                &&& self.step != Step::Done
                &&& self.state == Self::state_at(self.step)
                &&& (self.step.index() > Step::Settle.index() ==> self.now >= self.reserved_at
                    + self.config.settle_wait)
                &&& (self.state.index() >= LifecycleState::Reserved.index() ==> self.reserved_at
                    <= self.now)
                &&& (self.step == Step::Operate ==> self.ticks_done < self.config.total_ticks)
                &&& (self.step.index() < Step::Operate.index() ==> self.ticks_done == 0)
                &&& (self.step.index() >= Step::CancelHeartbeat.index() ==> self.ticks_done
                    == self.config.total_ticks)
                &&& (self.heartbeat_running <==> self.step.index() >= Step::AttachLabel.index())
                &&& (self.heartbeat_cancelled <==> self.step.index()
                    >= Step::SignalShutdown.index())
            },
            Option::Some(DriverOutcome::Success) => {
                &&& self.step == Step::Done
                &&& self.state == LifecycleState::Terminated
                &&& self.ticks_done == self.config.total_ticks
                &&& self.heartbeat_running
                &&& self.heartbeat_cancelled
            },
            Option::Some(DriverOutcome::Failure { .. }) => {
                &&& self.step == Step::Done
                &&& self.state != LifecycleState::Terminated
            },
        }
    }

    /// The action a given step asks for.
    pub open spec fn expects(self, a: Action) -> bool {
        match self.step {
            Step::Connect => a is Connect,
            Step::StartHeartbeat => a matches Action::StartHeartbeat { interval } && interval
                == self.config.heartbeat_interval,
            Step::AttachLabel => a matches Action::SetLabel(l) && l.key@ == "orimboard"@
                && l.value@ == "gameserver-1"@,
            Step::MarkReady => a is MarkReady,
            Step::Reserve => a matches Action::Reserve { window } && window
                == self.config.reservation_window,
            Step::Settle => a matches Action::Wait { duration } && duration
                == self.config.settle_wait,
            Step::ActivateLabel => a matches Action::SetLabel(l) && l.key@ == "gs-session-ready"@
                && l.value@ == "true"@,
            Step::FirstCorrelationLabel => a is SetCorrelationLabel,
            Step::SecondCorrelationLabel => a is SetCorrelationLabel,
            Step::PollStatus => a is GetStatus,
            Step::Operate => a matches Action::Wait { duration } && duration
                == self.config.tick_duration,
            Step::CancelHeartbeat => a is CancelHeartbeat,
            Step::SignalShutdown => a is SignalShutdown,
            Step::Done => a is Finish,
        }
    }

    /// The step that follows the current one when its action completes.
    pub open spec fn succ_step(self) -> Step {
        match self.step {
            Step::Connect => Step::StartHeartbeat,
            Step::StartHeartbeat => Step::AttachLabel,
            Step::AttachLabel => Step::MarkReady,
            Step::MarkReady => Step::Reserve,
            Step::Reserve => Step::Settle,
            Step::Settle => Step::ActivateLabel,
            Step::ActivateLabel => Step::FirstCorrelationLabel,
            Step::FirstCorrelationLabel => Step::SecondCorrelationLabel,
            Step::SecondCorrelationLabel => Step::PollStatus,
            Step::PollStatus => Step::Operate,
            Step::Operate => if self.ticks_done + 1 == self.config.total_ticks {
                Step::CancelHeartbeat
            } else {
                Step::Operate
            },
            Step::CancelHeartbeat => Step::SignalShutdown,
            Step::SignalShutdown => Step::Done,
            Step::Done => Step::Done,
        }
    }

    /// The lifecycle state after the current step's action completes.
    pub open spec fn state_after_completion(self) -> LifecycleState {
        match self.step {
            Step::MarkReady => LifecycleState::Ready,
            Step::Reserve => LifecycleState::Reserved,
            Step::ActivateLabel => LifecycleState::Active,
            Step::Operate => if self.ticks_done + 1 == self.config.total_ticks {
                LifecycleState::ShuttingDown
            } else {
                LifecycleState::Active
            },
            Step::SignalShutdown => LifecycleState::Terminated,
            _ => self.state,
        }
    }

    /// Logical time the current step's action takes.
    pub open spec fn dwell_time(self) -> int {
        match self.step {
            Step::Settle => self.config.settle_wait as int,
            Step::Operate => self.config.tick_duration as int,
            _ => 0,
        }
    }

    pub fn new(config: DriverConfig) -> (d: LifecycleDriver)
        requires
            config.wf(),
        ensures
            d.wf(),
            d.config == config,
            d.step == Step::Connect,
            d.state == LifecycleState::Starting,
            d.now == 0,
            d.ticks_done == 0,
            !d.heartbeat_running,
            !d.heartbeat_cancelled,
            d.outcome is None,
            d.history@ == seq![LifecycleState::Starting],
    {
        let ghost initial_history: Seq<LifecycleState> = seq![LifecycleState::Starting];
        let d = LifecycleDriver {
            config,
            step: Step::Connect,
            state: LifecycleState::Starting,
            now: 0,
            reserved_at: 0,
            ticks_done: 0,
            heartbeat_running: false,
            heartbeat_cancelled: false,
            outcome: None,
            history: Ghost(initial_history),
        };
        proof {
            assert(canonical_order().take(1) =~= seq![LifecycleState::Starting]);
        }
        d
    }

    /// The next action to perform, decided by the current step alone.
    pub fn next_action(&self) -> (a: Action)
        ensures
            self.expects(a),
    {
        match self.step {
            Step::Connect => Action::Connect,
            Step::StartHeartbeat => Action::StartHeartbeat {
                interval: self.config.heartbeat_interval,
            },
            Step::AttachLabel => Action::SetLabel(
                Label { key: "orimboard".to_owned(), value: "gameserver-1".to_owned() },
            ),
            Step::MarkReady => Action::MarkReady,
            Step::Reserve => Action::Reserve { window: self.config.reservation_window },
            Step::Settle => Action::Wait { duration: self.config.settle_wait },
            Step::ActivateLabel => Action::SetLabel(
                Label { key: "gs-session-ready".to_owned(), value: "true".to_owned() },
            ),
            Step::FirstCorrelationLabel => Action::SetCorrelationLabel,
            Step::SecondCorrelationLabel => Action::SetCorrelationLabel,
            Step::PollStatus => Action::GetStatus,
            Step::Operate => Action::Wait { duration: self.config.tick_duration },
            Step::CancelHeartbeat => Action::CancelHeartbeat,
            Step::SignalShutdown => Action::SignalShutdown,
            Step::Done => Action::Finish,
        }
    }

    /// Feed back the result of the requested action. A failure at any live
    /// step halts the driver with an outcome naming that step; a completion
    /// moves to the next step, advancing the reported lifecycle state, the
    /// clock and the tick count as the step dictates. A finished driver never
    /// changes again.
    pub fn on_event(&mut self, ev: Event)
        requires
            old(self).wf(),
        ensures
            final(self).wf(),
            final(self).config == old(self).config,
            old(self).step == Step::Done ==> *final(self) == *old(self),
            old(self).step != Step::Done ==> match ev {
                Event::Failed { cause } => {
                    &&& final(self).step == Step::Done
                    &&& final(self).state == old(self).state
                    &&& final(self).now == old(self).now
                    &&& final(self).reserved_at == old(self).reserved_at
                    &&& final(self).ticks_done == old(self).ticks_done
                    &&& final(self).heartbeat_running == old(self).heartbeat_running
                    &&& final(self).heartbeat_cancelled == old(self).heartbeat_cancelled
                    &&& final(self).history == old(self).history
                    &&& final(self).outcome == Some(
                        DriverOutcome::Failure { step: old(self).step, cause },
                    )
                },
                Event::Completed => {
                    &&& final(self).step == old(self).succ_step()
                    &&& final(self).state == old(self).state_after_completion()
                    &&& final(self).now == old(self).now + old(self).dwell_time()
                    &&& final(self).reserved_at == (if old(self).step == Step::Reserve {
                        final(self).now as int
                    } else {
                        old(self).reserved_at as int
                    })
                    &&& final(self).ticks_done == (if old(self).step == Step::Operate {
                        old(self).ticks_done + 1
                    } else {
                        old(self).ticks_done as int
                    })
                    &&& final(self).heartbeat_running == (old(self).heartbeat_running || old(
                        self,
                    ).step == Step::StartHeartbeat)
                    &&& final(self).heartbeat_cancelled == (old(self).heartbeat_cancelled || old(
                        self,
                    ).step == Step::CancelHeartbeat)
                    &&& final(self).outcome == (if old(self).succ_step() == Step::Done {
                        Some(DriverOutcome::Success)
                    } else {
                        None::<DriverOutcome>
                    })
                    &&& final(self).history@ == (if old(self).state_after_completion() == old(
                        self,
                    ).state {
                        old(self).history@
                    } else {
                        old(self).history@.push(old(self).state_after_completion())
                    })
                },
            },
    {
        if self.step == Step::Done {
            return ;
        }
        match ev {
            Event::Failed { cause } => {
                self.outcome = Some(DriverOutcome::Failure { step: self.step, cause });
                self.step = Step::Done;
            },
            Event::Completed => {
                match self.step {
                    Step::Connect => {
                        self.step = Step::StartHeartbeat;
                    },
                    Step::StartHeartbeat => {
                        self.heartbeat_running = true;
                        self.step = Step::AttachLabel;
                    },
                    Step::AttachLabel => {
                        self.step = Step::MarkReady;
                    },
                    Step::MarkReady => {
                        self.state = LifecycleState::Ready;
                        self.history = Ghost(self.history@.push(LifecycleState::Ready));
                        self.step = Step::Reserve;
                        proof {
                            assert(canonical_order().take(2) =~= canonical_order().take(1).push(
                                LifecycleState::Ready,
                            ));
                        }
                    },
                    Step::Reserve => {
                        self.state = LifecycleState::Reserved;
                        self.history = Ghost(self.history@.push(LifecycleState::Reserved));
                        self.reserved_at = self.now;
                        self.step = Step::Settle;
                        proof {
                            assert(canonical_order().take(3) =~= canonical_order().take(2).push(
                                LifecycleState::Reserved,
                            ));
                        }
                    },
                    Step::Settle => {
                        proof {
                            assert(self.config.tick_duration * (self.config.total_ticks
                                - self.ticks_done) >= 0) by (nonlinear_arith)
                                requires
                                    self.config.tick_duration >= 0,
                                    self.config.total_ticks >= self.ticks_done,
                            ;
                        }
                        self.now = self.now + self.config.settle_wait;
                        self.step = Step::ActivateLabel;
                    },
                    Step::ActivateLabel => {
                        self.state = LifecycleState::Active;
                        self.history = Ghost(self.history@.push(LifecycleState::Active));
                        self.step = Step::FirstCorrelationLabel;
                        proof {
                            assert(canonical_order().take(4) =~= canonical_order().take(3).push(
                                LifecycleState::Active,
                            ));
                        }
                    },
                    Step::FirstCorrelationLabel => {
                        self.step = Step::SecondCorrelationLabel;
                    },
                    Step::SecondCorrelationLabel => {
                        self.step = Step::PollStatus;
                    },
                    Step::PollStatus => {
                        self.step = Step::Operate;
                    },
                    Step::Operate => {
                        proof {
                            assert(self.config.tick_duration * (self.config.total_ticks - (
                            self.ticks_done + 1)) == self.config.tick_duration * (
                            self.config.total_ticks - self.ticks_done)
                                - self.config.tick_duration) by (nonlinear_arith);
                            assert(self.config.tick_duration * (self.config.total_ticks - (
                            self.ticks_done + 1)) >= 0) by (nonlinear_arith)
                                requires
                                    self.config.tick_duration >= 0,
                                    self.config.total_ticks >= self.ticks_done + 1,
                            ;
                        }
                        self.now = self.now + self.config.tick_duration;
                        self.ticks_done = self.ticks_done + 1;
                        if self.ticks_done == self.config.total_ticks {
                            self.state = LifecycleState::ShuttingDown;
                            self.history = Ghost(
                                self.history@.push(LifecycleState::ShuttingDown),
                            );
                            self.step = Step::CancelHeartbeat;
                            proof {
                                assert(canonical_order().take(5) =~= canonical_order().take(
                                    4,
                                ).push(LifecycleState::ShuttingDown));
                            }
                        }
                    },
                    Step::CancelHeartbeat => {
                        self.heartbeat_cancelled = true;
                        self.step = Step::SignalShutdown;
                    },
                    Step::SignalShutdown => {
                        self.state = LifecycleState::Terminated;
                        self.history = Ghost(self.history@.push(LifecycleState::Terminated));
                        self.outcome = Some(DriverOutcome::Success);
                        self.step = Step::Done;
                        proof {
                            assert(canonical_order().take(6) =~= canonical_order().take(5).push(
                                LifecycleState::Terminated,
                            ));
                        }
                    },
                    Step::Done => {},
                }
            },
        }
    }
}

/// In a successful run the lifecycle states were entered in exactly the fixed
/// order, each exactly once: the recorded history is the canonical order
/// itself.
pub proof fn lemma_successful_run_order(d: LifecycleDriver)
    requires
        d.wf(),
        d.outcome == Some(DriverOutcome::Success),
    ensures
        d.history@ == canonical_order(),
{
    assert(canonical_order().take(6) =~= canonical_order());
}

/// After a failure the driver is halted: the only action it ever asks for
/// again is `Finish`, so no later lifecycle step is attempted.
pub proof fn lemma_failure_halts(d: LifecycleDriver, a: Action)
    requires
        d.wf(),
        d.outcome matches Some(DriverOutcome::Failure { .. }),
        d.expects(a),
    ensures
        d.step == Step::Done,
        a is Finish,
{
}

/// When the activation step is attempted, at least the settle wait — and
/// hence at least the full reservation window — has elapsed on the logical
/// clock since the reservation was entered.
pub proof fn lemma_no_early_activation(d: LifecycleDriver)
    requires
        d.wf(),
        d.step == Step::ActivateLabel,
    ensures
        d.now - d.reserved_at >= d.config.settle_wait,
        d.now - d.reserved_at >= d.config.reservation_window,
{
}

/// The operating loop runs its full count: shutdown is entered exactly after
/// the configured number of ticks and never earlier.
pub proof fn lemma_shutdown_after_full_run(d: LifecycleDriver)
    requires
        d.wf(),
    ensures
        d.state.index() >= LifecycleState::ShuttingDown.index() ==> d.ticks_done
            == d.config.total_ticks,
        d.step == Step::Operate ==> d.ticks_done < d.config.total_ticks,
{
}

/// The shutdown signal is only ever requested once the heartbeat task has
/// already been cancelled.
pub proof fn lemma_cancel_precedes_shutdown_signal(d: LifecycleDriver, a: Action)
    requires
        d.wf(),
        d.expects(a),
        a is SignalShutdown,
    ensures
        d.heartbeat_cancelled,
{
}

/// A heartbeat task is only ever started when none is running, so at most one
/// is ever live.
pub proof fn lemma_single_heartbeat(d: LifecycleDriver, a: Action)
    requires
        d.wf(),
        d.expects(a),
        a matches Action::StartHeartbeat { .. },
    ensures
        !d.heartbeat_running,
{
}

} // verus!
