use vstd::prelude::*;

use crate::data::Data;
use crate::indication::{classify, classify_spec, IndicatorState};

verus! {

/// Fixed period of the sampling task, in milliseconds of the monotonic clock.
pub const SAMPLE_PERIOD_MS: u64 = 30_000;

/// Fixed total duration of one alert burst, in milliseconds; the burst always
/// runs to completion, with no early exit and no extension.
pub const ALERT_BURST_MS: u64 = 1_000;

/// Lifecycle of one task: it is either waiting or in the middle of one
/// run-to-completion firing.
#[derive(Clone, Copy, Debug, PartialEq, Eq)]
pub enum TaskState {
    Idle,
    Running,
}

/// What the dispatcher should run next.
#[derive(Clone, Copy, Debug, PartialEq, Eq)]
pub enum Action {
    StartSample,
    StartAlert,
}

/// Scheduling state of the two tasks on the single core: the periodic,
/// low-priority sampling task and the higher-priority alert task. Each task's
/// hardware handles are owned by that task alone, so no lock guards them; the
/// scheduler only decides when each firing may start.
#[derive(Clone, Copy, Debug, PartialEq, Eq)]
pub struct Scheduler {
    /// State of the sampling task.
    pub sample: TaskState,
    /// State of the alert task.
    pub alert: TaskState,
    /// Earliest instant (monotonic milliseconds) of the sampling task's next firing.
    pub sample_due: u64,
    /// An alert burst was requested and has not started yet. At most one
    /// request is ever pending: further requests coalesce into it.
    pub alert_requested: bool,
    /// How many alert bursts have started.
    pub bursts_started: u64,
}

impl Scheduler {
    /// The scheduler's invariant: a running alert burst has no pending
    /// request beside it — the request that started it was consumed, and
    /// requests arriving during the burst are ignored, not queued.
    pub open spec fn wf(self) -> bool {
        self.alert is Running ==> !self.alert_requested
    }

    /// State at startup: both tasks idle, no request pending, and the first
    /// sample firing kicked off to run at once.
    pub open spec fn initial_spec(now: u64) -> Scheduler {
        Scheduler {
            sample: TaskState::Idle,
            alert: TaskState::Idle,
            sample_due: now,
            alert_requested: false,
            bursts_started: 0,
        }
    }

    pub fn new(now: u64) -> (s: Scheduler)
        ensures
            s == Scheduler::initial_spec(now),
            s.wf(),
    {
        Scheduler {
            sample: TaskState::Idle,
            alert: TaskState::Idle,
            sample_due: now,
            alert_requested: false,
            bursts_started: 0,
        }
    }

    /// Request an alert burst: ignored while one is running (the existing
    /// burst completes, nothing is queued or extended); otherwise at most one
    /// request is kept pending, however many are issued.
    pub open spec fn request_alert_spec(self) -> Scheduler {
        if self.alert is Running {
            self
        } else {
            Scheduler { alert_requested: true, ..self }
        }
    }

    pub fn request_alert(&mut self)
        ensures
            *final(self) == old(self).request_alert_spec(),
            old(self).wf() ==> final(self).wf(),
    {
        match self.alert {
            TaskState::Running => {},
            TaskState::Idle => {
                self.alert_requested = true;
            },
        }
    }

    /// The sampling task may fire: it is idle, its period has elapsed, and
    /// the higher-priority alert task neither runs nor waits to run.
    pub open spec fn can_start_sample(self, now: u64) -> bool {
        &&& self.sample is Idle
        &&& self.alert is Idle
        &&& !self.alert_requested
        &&& now >= self.sample_due
    }

    /// Fire the sampling task. The next firing is re-armed one period after
    /// this run's start, so a long run shrinks the idle gap but firings never
    /// overlap: a timer expiry while the task still runs is deferred, not
    /// interleaved, and the state does not change.
    pub open spec fn start_sample_spec(self, now: u64) -> (Scheduler, bool) {
        if self.can_start_sample(now) {
            (
                Scheduler {
                    sample: TaskState::Running,
                    sample_due: (now + SAMPLE_PERIOD_MS) as u64,
                    ..self
                },
                true,
            )
        } else {
            (self, false)
        }
    }

    pub fn start_sample(&mut self, now: u64) -> (started: bool)
        requires
            now + SAMPLE_PERIOD_MS <= u64::MAX,
        ensures
            *final(self) == old(self).start_sample_spec(now).0,
            started == old(self).start_sample_spec(now).1,
            old(self).wf() ==> final(self).wf(),
    {
        let may_fire = match (self.sample, self.alert) {
            (TaskState::Idle, TaskState::Idle) => !self.alert_requested && now >= self.sample_due,
            _ => false,
        };
        if may_fire {
            self.sample = TaskState::Running;
            self.sample_due = now + SAMPLE_PERIOD_MS;
            true
        } else {
            false
        }
    }

    /// The sampling task's firing ran to completion and returns to idle.
    pub open spec fn finish_sample_spec(self) -> Scheduler {
        Scheduler { sample: TaskState::Idle, ..self }
    }

    pub fn finish_sample(&mut self)
        requires
            old(self).sample is Running,
        ensures
            *final(self) == old(self).finish_sample_spec(),
            old(self).wf() ==> final(self).wf(),
    {
        self.sample = TaskState::Idle;
    }

    /// Dispatch a pending alert request: the burst starts and the request is
    /// consumed. Without a pending request, or while a burst already runs,
    /// nothing starts.
    pub open spec fn start_alert_spec(self) -> (Scheduler, bool) {
        if self.alert is Idle && self.alert_requested {
            (
                Scheduler {
                    alert: TaskState::Running,
                    alert_requested: false,
                    bursts_started: (self.bursts_started + 1) as u64,
                    ..self
                },
                true,
            )
        } else {
            (self, false)
        }
    }

    pub fn start_alert(&mut self) -> (started: bool)
        requires
            old(self).bursts_started < u64::MAX,
        ensures
            *final(self) == old(self).start_alert_spec().0,
            started == old(self).start_alert_spec().1,
            old(self).wf() ==> final(self).wf(),
    {
        let may_start = match self.alert {
            TaskState::Idle => self.alert_requested,
            TaskState::Running => false,
        };
        if may_start {
            self.alert = TaskState::Running;
            self.alert_requested = false;
            self.bursts_started = self.bursts_started + 1;
            true
        } else {
            false
        }
    }

    /// The alert burst ran its fixed duration and the task returns to idle.
    pub open spec fn finish_alert_spec(self) -> Scheduler {
        Scheduler { alert: TaskState::Idle, ..self }
    }

    pub fn finish_alert(&mut self)
        requires
            old(self).alert is Running,
        ensures
            *final(self) == old(self).finish_alert_spec(),
            old(self).wf() ==> final(self).wf(),
    {
        self.alert = TaskState::Idle;
    }

    /// Priority rule of the dispatcher: a pending alert is dispatched before
    /// a due sample firing; a due sample firing runs only when nothing of
    /// higher priority runs or waits.
    pub open spec fn next_action_spec(self, now: u64) -> Option<Action> {
        if self.alert is Idle && self.alert_requested {
            Some(Action::StartAlert)
        } else if self.can_start_sample(now) {
            Some(Action::StartSample)
        } else {
            None
        }
    }

    pub fn next_action(&self, now: u64) -> (a: Option<Action>)
        ensures
            a == self.next_action_spec(now),
    {
        let alert_idle = match self.alert {
            TaskState::Idle => true,
            TaskState::Running => false,
        };
        let sample_idle = match self.sample {
            TaskState::Idle => true,
            TaskState::Running => false,
        };
        if alert_idle && self.alert_requested {
            Some(Action::StartAlert)
        } else if sample_idle && alert_idle && !self.alert_requested && now >= self.sample_due {
            Some(Action::StartSample)
        } else {
            None
        }
    }
}

/// Task mutual exclusion: a timer expiry while the sampling task is still
/// running is deferred — the scheduler does not change and no second firing
/// starts, so two sample runs never overlap.
pub proof fn lemma_sample_firing_deferred(s: Scheduler, now: u64)
    requires
        s.sample is Running,
    ensures
        s.start_sample_spec(now) == (s, false),
{
}

/// However the clock is advanced, a firing that started stays the only one
/// until it completes: a second start attempt, at any later instant, is
/// deferred and changes nothing.
pub proof fn lemma_no_overlapping_firings(s: Scheduler, now: u64, later: u64)
    requires
        s.start_sample_spec(now).1,
    ensures
        s.start_sample_spec(now).0.start_sample_spec(later) == (s.start_sample_spec(now).0, false),
{
}

/// Alert coalescing: requests are absorbed, never queued. A second request
/// changes nothing beyond the first, and while a burst is running a request
/// leaves the scheduler untouched and starts no further burst — two requests
/// during one burst yield exactly that one burst.
pub proof fn lemma_alert_coalesced(s: Scheduler)
    ensures
        s.request_alert_spec().request_alert_spec() == s.request_alert_spec(),
        s.request_alert_spec().bursts_started == s.bursts_started,
        s.alert is Running ==> s.request_alert_spec() == s,
        s.alert is Running ==> !s.request_alert_spec().start_alert_spec().1,
{
}

/// Priority: when an alert request is pending and the sampling task's period
/// has also elapsed, the alert is dispatched first, whatever the arrival
/// order was.
pub proof fn lemma_alert_has_priority(s: Scheduler, now: u64)
    requires
        s.alert is Idle,
        s.alert_requested,
    ensures
        s.next_action_spec(now) == Some(Action::StartAlert),
{
}

/// Every transition preserves the scheduler's invariant.
pub proof fn lemma_wf_preserved(s: Scheduler, now: u64)
    requires
        s.wf(),
    ensures
        s.request_alert_spec().wf(),
        s.start_sample_spec(now).0.wf(),
        s.finish_sample_spec().wf(),
        s.start_alert_spec().0.wf(),
        s.finish_alert_spec().wf(),
{
}

/// What one sampling run does with the codec's answer. The bus transaction,
/// indicator update and render call happen in this fixed order within the
/// run; nothing of another sample run can interleave.
#[derive(Clone, Copy, Debug, PartialEq, Eq)]
pub struct CyclePlan {
    /// The reading to render, if the sensor had one buffered; on `None` the
    /// display keeps its last-good frame.
    pub render: Option<Data>,
    /// The color to set the indicator to, if there was a reading.
    pub indicator: Option<IndicatorState>,
    /// Whether to request an alert burst, per the indication policy.
    pub request_alert: bool,
}

/// The sampling task's decision on one poll outcome: no reading leaves the
/// display and indicator untouched and requests nothing; a reading is
/// rendered, the indicator takes the policy's color, and an alert burst is
/// requested exactly when the policy says so.
pub open spec fn plan_cycle_spec(m: Option<Data>) -> CyclePlan {
    match m {
        None => CyclePlan { render: None, indicator: None, request_alert: false },
        Some(d) => CyclePlan {
            render: Some(d),
            indicator: Some(classify_spec(d.co2_bits).0),
            request_alert: classify_spec(d.co2_bits).1,
        },
    }
}

pub fn plan_cycle(m: Option<Data>) -> (p: CyclePlan)
    ensures
        p == plan_cycle_spec(m),
{
    match m {
        None => CyclePlan { render: None, indicator: None, request_alert: false },
        Some(d) => {
            let c = classify(d.co2_bits);
            CyclePlan { render: Some(d), indicator: Some(c.0), request_alert: c.1 }
        },
    }
}

} // verus!
