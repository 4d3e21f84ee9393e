//! The screenshot scheduler, the capture worker, the dispatch of capture
//! reports and the process-wide screenshot handles.

use vstd::prelude::*;
use crate::schedule::{ShutdownSignal, LoopAction, requests_stop, shutdown_requested};

verus! {

/// Seconds between scheduler rounds while screenshots are disabled.
pub const DEFAULT_SCREENSHOT_INTERVAL_SECS: u64 = 300;

/// The shortest interval the scheduler honours while screenshots are enabled.
pub const MIN_SCREENSHOT_INTERVAL_SECS: u64 = 60;

/// How long the scheduler sleeps before its next round.
pub open spec fn scheduler_sleep(enabled: bool, interval_seconds: u64) -> u64 {
    if enabled {
        if interval_seconds < MIN_SCREENSHOT_INTERVAL_SECS {
            MIN_SCREENSHOT_INTERVAL_SECS
        } else {
            interval_seconds
        }
    } else {
        DEFAULT_SCREENSHOT_INTERVAL_SECS
    }
}

/// The sleep before the next scheduler round under a policy with the given
/// `enabled` flag and `interval_seconds`.
pub fn screenshot_sleep_secs(enabled: bool, interval_seconds: u64) -> (r: u64)
    ensures
        r == scheduler_sleep(enabled, interval_seconds),
{
    if enabled {
        if interval_seconds < MIN_SCREENSHOT_INTERVAL_SECS {
            MIN_SCREENSHOT_INTERVAL_SECS
        } else {
            interval_seconds
        }
    } else {
        DEFAULT_SCREENSHOT_INTERVAL_SECS
    }
}

/// What ended a wait of the screenshot scheduler.
pub enum ScreenshotSchedulerEvent {
    Shutdown(ShutdownSignal),
    /// The scheduler was woken (its policy may have changed).
    Woken,
    /// The sleep ran out; `capture_enabled` is the policy's flag now.
    TimerElapsed { capture_enabled: bool },
}

/// The scheduler's reaction: a scheduled capture is a request for every
/// user, sent as `None` on the trigger channel.
pub open spec fn scheduler_reaction(event: ScreenshotSchedulerEvent) -> LoopAction<Option<String>> {
    match event {
        ScreenshotSchedulerEvent::Shutdown(signal) => if requests_stop(signal) {
            LoopAction::Stop
        } else {
            LoopAction::Continue
        },
        ScreenshotSchedulerEvent::Woken => LoopAction::Continue,
        ScreenshotSchedulerEvent::TimerElapsed { capture_enabled } => if capture_enabled {
            LoopAction::Run(None)
        } else {
            LoopAction::Continue
        },
    }
}

/// One round of the screenshot scheduler.
pub fn screenshot_scheduler_step(event: ScreenshotSchedulerEvent) -> (r: LoopAction<Option<String>>)
    ensures
        r == scheduler_reaction(event),
{
    match event {
        ScreenshotSchedulerEvent::Shutdown(signal) => if shutdown_requested(&signal) {
            LoopAction::Stop
        } else {
            LoopAction::Continue
        },
        ScreenshotSchedulerEvent::Woken => LoopAction::Continue,
        ScreenshotSchedulerEvent::TimerElapsed { capture_enabled } => if capture_enabled {
            LoopAction::Run(None)
        } else {
            LoopAction::Continue
        },
    }
}

/// What ended a wait of the capture worker.
pub enum CaptureWorkerEvent {
    Shutdown(ShutdownSignal),
    /// A receive on the trigger channel: `None` when every sender is gone,
    /// otherwise the requested user (or `None` for every user).
    Trigger(Option<Option<String>>),
}

pub open spec fn worker_reaction(event: CaptureWorkerEvent) -> LoopAction<Option<String>> {
    match event {
        CaptureWorkerEvent::Shutdown(signal) => if requests_stop(signal) {
            LoopAction::Stop
        } else {
            LoopAction::Continue
        },
        CaptureWorkerEvent::Trigger(received) => match received {
            None => LoopAction::Stop,
            Some(user) => LoopAction::Run(user),
        },
    }
}

/// One round of the capture worker: capture (for the requested user) on
/// each trigger, stop on shutdown or when the trigger channel closes.
pub fn capture_worker_step(event: CaptureWorkerEvent) -> (r: LoopAction<Option<String>>)
    ensures
        r == worker_reaction(event),
{
    match event {
        CaptureWorkerEvent::Shutdown(signal) => if shutdown_requested(&signal) {
            LoopAction::Stop
        } else {
            LoopAction::Continue
        },
        CaptureWorkerEvent::Trigger(received) => match received {
            None => LoopAction::Stop,
            Some(user) => LoopAction::Run(user),
        },
    }
}

/// What to do with one capture: send its serialized report, or log why
/// no report could be built.
pub enum ReportStep {
    Send(String),
    Log(String),
}

pub open spec fn report_failure_line(error: Seq<char>) -> Seq<char> {
    "Failed to build screenshot report: "@ + error
}

pub open spec fn report_step_matches(result: Result<String, String>, step: ReportStep) -> bool {
    match result {
        Ok(report) => step matches ReportStep::Send(sent) && sent@ == report@,
        Err(error) => step matches ReportStep::Log(line) && line@ == report_failure_line(error@),
    }
}

/// One step per capture, in capture order: each report that could be built
/// is sent, each failure is logged.
pub fn screenshot_report_steps(results: Vec<Result<String, String>>) -> (r: Vec<ReportStep>)
    ensures
        r@.len() == results@.len(),
        forall|i: int| 0 <= i < results@.len() ==> report_step_matches(results@[i], #[trigger] r@[i]),
        forall|i: int|
            0 <= i < results@.len() ==> match #[trigger] results@[i] {
                Ok(report) => r@[i] matches ReportStep::Send(sent) && sent@ == report@,
                Err(error) => r@[i] matches ReportStep::Log(line) && line@
                    == "Failed to build screenshot report: "@ + error@,
            },
{
    let mut steps: Vec<ReportStep> = Vec::new();
    let mut i: usize = 0;
    while i < results.len()
        invariant
            i <= results@.len(),
            steps@.len() == i,
            forall|k: int| 0 <= k < i ==> report_step_matches(results@[k], #[trigger] steps@[k]),
        decreases results@.len() - i,
    {
        let step = match &results[i] {
            Ok(report) => ReportStep::Send(report.clone()),
            Err(error) => {
                let mut line = String::from_str("Failed to build screenshot report: ");
                line.append(error.as_str());
                ReportStep::Log(line)
            },
        };
        steps.push(step);
        i = i + 1;
    }
    steps
}

/// The process-wide screenshot handles: the shared screenshot policy
/// (created on first use), the sender that requests captures, and the
/// sender that wakes the scheduler. `P`, `T` and `W` are the types of those
/// three handles.
pub struct ScreenshotHandles<P, T, W> {
    policy: Option<P>,
    trigger_tx: Option<T>,
    wake_tx: Option<W>,
}

/// What the handles hold, slot by slot.
pub struct HandleSlots<P, T, W> {
    pub policy: Option<P>,
    pub trigger: Option<T>,
    pub wake: Option<W>,
}

impl<P, T, W> HandleSlots<P, T, W> {
    /// After asking for the policy handle, offering `fresh` in case there
    /// is none yet.
    pub open spec fn with_policy(self, fresh: P) -> Self {
        if self.policy is Some {
            self
        } else {
            HandleSlots { policy: Some(fresh), trigger: self.trigger, wake: self.wake }
        }
    }

    /// After registering `sender` as the capture trigger.
    pub open spec fn with_trigger(self, sender: T) -> Self {
        HandleSlots { policy: self.policy, trigger: Some(sender), wake: self.wake }
    }

    /// After registering `sender` as the scheduler's wake-up.
    pub open spec fn with_wake(self, sender: W) -> Self {
        HandleSlots { policy: self.policy, trigger: self.trigger, wake: Some(sender) }
    }

    /// After dropping both senders; the policy stays.
    pub open spec fn cleared(self) -> Self {
        HandleSlots { policy: self.policy, trigger: None, wake: None }
    }
}

impl<P, T, W> View for ScreenshotHandles<P, T, W> {
    type V = HandleSlots<P, T, W>;

    closed spec fn view(&self) -> HandleSlots<P, T, W> {
        HandleSlots { policy: self.policy, trigger: self.trigger_tx, wake: self.wake_tx }
    }
}

impl<P, T, W> ScreenshotHandles<P, T, W> {
    /// No policy yet and no senders registered.
    pub fn new() -> (r: Self)
        ensures
            r@ == (HandleSlots::<P, T, W> { policy: None, trigger: None, wake: None }),
    {
        ScreenshotHandles { policy: None, trigger_tx: None, wake_tx: None }
    }

    /// The shared screenshot policy, created by `init` the first time it is
    /// asked for; every later call returns that same handle.
    pub fn get_screenshot_policy_handle<F: FnOnce() -> P>(&mut self, init: F) -> (h: &P)
        requires
            init.requires(()),
        ensures
            final(self)@ == old(self)@.after(HandleCall::GetPolicy(*h)),
            old(self)@.policy matches Some(p) ==> *h == p,
            old(self)@.policy is None ==> init.ensures((), *h),
    {
        if self.policy.is_none() {
            let fresh = init();
            self.policy = Some(fresh);
        }
        self.policy.as_ref().unwrap()
    }

    /// Registers the sender through which captures are requested.
    pub fn set_screenshot_trigger_tx(&mut self, sender: T)
        ensures
            final(self)@ == old(self)@.after(HandleCall::SetTrigger(sender)),
    {
        self.trigger_tx = Some(sender);
    }

    /// Registers the sender that wakes the scheduler.
    pub fn set_scheduler_wake_tx(&mut self, sender: W)
        ensures
            final(self)@ == old(self)@.after(HandleCall::SetWake(sender)),
    {
        self.wake_tx = Some(sender);
    }

    /// Drops the trigger and wake-up senders; the policy stays.
    pub fn clear_screenshot_handles(&mut self)
        ensures
            final(self)@ == old(self)@.after(HandleCall::Clear),
    {
        self.trigger_tx = None;
        self.wake_tx = None;
    }

    /// The sender to signal to wake the scheduler, if one is registered;
    /// with none registered there is nobody to wake.
    pub fn wake_screenshot_scheduler(&self) -> (r: Option<&W>)
        ensures
            match r {
                Some(w) => self@.wake == Some(*w),
                None => self@.wake is None,
            },
    {
        self.wake_tx.as_ref()
    }
}

/// One call on the handles, as far as it concerns them: asking for the
/// policy handle (offering `fresh` in case there is none yet), registering
/// a trigger or wake-up sender, clearing, or waking the scheduler.
pub enum HandleCall<P, T, W> {
    GetPolicy(P),
    SetTrigger(T),
    SetWake(W),
    Clear,
    Wake,
}

impl<P, T, W> HandleSlots<P, T, W> {
    /// The slots after `call`, as the methods' contracts state them.
    pub open spec fn after(self, call: HandleCall<P, T, W>) -> Self {
        match call {
            HandleCall::GetPolicy(fresh) => self.with_policy(fresh),
            HandleCall::SetTrigger(t) => self.with_trigger(t),
            HandleCall::SetWake(w) => self.with_wake(w),
            HandleCall::Clear => self.cleared(),
            HandleCall::Wake => self,
        }
    }
}

/// The slots after the calls `calls`, made in order from `s`.
pub open spec fn after_calls<P, T, W>(s: HandleSlots<P, T, W>, calls: Seq<HandleCall<P, T, W>>) -> HandleSlots<P, T, W>
    decreases calls.len(),
{
    if calls.len() == 0 {
        s
    } else {
        after_calls(s, calls.drop_last()).after(calls.last())
    }
}

/// The policy handle that the `i`-th call hands out, when it asks for one.
pub open spec fn handed_out<P, T, W>(s: HandleSlots<P, T, W>, calls: Seq<HandleCall<P, T, W>>, i: int) -> P {
    after_calls(s, calls.take(i + 1)).policy->0
}

proof fn lemma_after_prefix<P, T, W>(s: HandleSlots<P, T, W>, calls: Seq<HandleCall<P, T, W>>, m: int)
    requires
        0 <= m < calls.len(),
    ensures
        after_calls(s, calls.take(m + 1)) == after_calls(s, calls.take(m)).after(calls[m]),
{
    assert(calls.take(m + 1).drop_last() =~= calls.take(m));
}

proof fn lemma_after_whole<P, T, W>(s: HandleSlots<P, T, W>, calls: Seq<HandleCall<P, T, W>>)
    ensures
        after_calls(s, calls.take(calls.len() as int)) == after_calls(s, calls),
{
    assert(calls.take(calls.len() as int) =~= calls);
}

proof fn lemma_policy_persists<P, T, W>(
    s: HandleSlots<P, T, W>,
    calls: Seq<HandleCall<P, T, W>>,
    i: int,
    m: int,
)
    requires
        0 <= i <= m <= calls.len(),
        after_calls(s, calls.take(i)).policy is Some,
    ensures
        after_calls(s, calls.take(m)).policy == after_calls(s, calls.take(i)).policy,
    decreases m - i,
{
    if m > i {
        lemma_policy_persists(s, calls, i, m - 1);
        lemma_after_prefix(s, calls, m - 1);
    }
}

/// Over any history of calls, every request for the policy handle gets the
/// same handle; starting without one, it is the one offered by the first
/// request, and later offers are never used.
pub proof fn law_policy_handle_same_over_history<P, T, W>(
    s: HandleSlots<P, T, W>,
    calls: Seq<HandleCall<P, T, W>>,
    i: int,
    j: int,
)
    requires
        0 <= i < j < calls.len(),
        calls[i] is GetPolicy,
        calls[j] is GetPolicy,
    ensures
        handed_out(s, calls, i) == handed_out(s, calls, j),
        s.policy is Some ==> handed_out(s, calls, j) == s.policy->0,
        s.policy is None && (forall|k: int| 0 <= k < i ==> !(#[trigger] calls[k] is GetPolicy))
            ==> handed_out(s, calls, j) == calls[i]->GetPolicy_0,
{
    lemma_after_prefix(s, calls, i);
    lemma_after_prefix(s, calls, j);
    lemma_policy_persists(s, calls, i + 1, j + 1);
    if s.policy is Some {
        assert(after_calls(s, calls.take(0)) == s) by {
            assert(calls.take(0) =~= Seq::<HandleCall<P, T, W>>::empty());
        }
        lemma_policy_persists(s, calls, 0, i + 1);
    }
    if s.policy is None && (forall|k: int| 0 <= k < i ==> !(#[trigger] calls[k] is GetPolicy)) {
        lemma_no_policy_without_request(s, calls, i);
    }
}

proof fn lemma_no_policy_without_request<P, T, W>(
    s: HandleSlots<P, T, W>,
    calls: Seq<HandleCall<P, T, W>>,
    m: int,
)
    requires
        0 <= m <= calls.len(),
        s.policy is None,
        forall|k: int| 0 <= k < m ==> !(#[trigger] calls[k] is GetPolicy),
    ensures
        after_calls(s, calls.take(m)).policy is None,
    decreases m,
{
    if m == 0 {
        assert(calls.take(0) =~= Seq::<HandleCall<P, T, W>>::empty());
    } else {
        lemma_no_policy_without_request(s, calls, m - 1);
        lemma_after_prefix(s, calls, m - 1);
    }
}

proof fn lemma_wake_slot_kept<P, T, W>(
    s: HandleSlots<P, T, W>,
    calls: Seq<HandleCall<P, T, W>>,
    k: int,
    m: int,
)
    requires
        0 <= k <= m <= calls.len(),
        forall|j: int| k <= j < calls.len() ==> !(#[trigger] calls[j] is SetWake) && !(calls[j] is Clear),
    ensures
        after_calls(s, calls.take(m)).wake == after_calls(s, calls.take(k)).wake,
    decreases m - k,
{
    if m > k {
        lemma_wake_slot_kept(s, calls, k, m - 1);
        lemma_after_prefix(s, calls, m - 1);
    }
}

/// Over any history of calls, once a scheduler registered its wake-up
/// sender and neither a clear nor another registration followed, waking
/// signals exactly that sender.
pub proof fn law_wake_reaches_registered_scheduler<P, T, W>(
    s: HandleSlots<P, T, W>,
    calls: Seq<HandleCall<P, T, W>>,
    k: int,
)
    requires
        0 <= k < calls.len(),
        calls[k] is SetWake,
        forall|j: int|
            k < j < calls.len() ==> !(#[trigger] calls[j] is SetWake) && !(calls[j] is Clear),
    ensures
        after_calls(s, calls).wake == Some(calls[k]->SetWake_0),
{
    lemma_after_prefix(s, calls, k);
    lemma_wake_slot_kept(s, calls, k + 1, calls.len() as int);
    lemma_after_whole(s, calls);
}

/// Over any history of calls, when the last registration of a wake-up
/// sender was followed by a clear, or no sender was ever registered from a
/// start without one, waking finds nobody to signal.
pub proof fn law_nothing_woken_after_clear<P, T, W>(
    s: HandleSlots<P, T, W>,
    calls: Seq<HandleCall<P, T, W>>,
    k: int,
)
    requires
        -1 <= k < calls.len(),
        k >= 0 ==> calls[k] is Clear,
        k == -1 ==> s.wake is None,
        forall|j: int| k < j < calls.len() ==> !(#[trigger] calls[j] is SetWake),
    ensures
        after_calls(s, calls).wake is None,
{
    lemma_wake_empty_from(s, calls, k + 1, calls.len() as int);
    lemma_after_whole(s, calls);
}

proof fn lemma_wake_empty_from<P, T, W>(
    s: HandleSlots<P, T, W>,
    calls: Seq<HandleCall<P, T, W>>,
    start: int,
    m: int,
)
    requires
        0 <= start <= m <= calls.len(),
        start > 0 ==> calls[start - 1] is Clear,
        start == 0 ==> s.wake is None,
        forall|j: int| start - 1 < j < calls.len() ==> !(#[trigger] calls[j] is SetWake),
    ensures
        after_calls(s, calls.take(m)).wake is None,
    decreases m - start,
{
    if m > start {
        lemma_wake_empty_from(s, calls, start, m - 1);
        lemma_after_prefix(s, calls, m - 1);
    } else if start == 0 {
        assert(calls.take(0) =~= Seq::<HandleCall<P, T, W>>::empty());
    } else {
        lemma_after_prefix(s, calls, start - 1);
    }
}

/// Once created, the shared policy handle never changes: asking again
/// returns the first handle, whatever would have been offered.
pub proof fn law_policy_handle_is_stable<P, T, W>(s: HandleSlots<P, T, W>, first: P, later: P)
    ensures
        s.with_policy(first).with_policy(later) == s.with_policy(first),
        s.with_policy(first).policy == Some(
            if s.policy is Some {
                s.policy->0
            } else {
                first
            },
        ),
{
}

/// Clearing the handles undoes any registration of senders, keeps the
/// policy, and leaves nobody to wake.
pub proof fn law_clear_undoes_registration<P, T, W>(s: HandleSlots<P, T, W>, t: T, w: W)
    ensures
        s.with_trigger(t).cleared() == s.cleared(),
        s.with_wake(w).cleared() == s.cleared(),
        s.cleared().cleared() == s.cleared(),
        s.cleared().policy == s.policy,
        s.cleared().wake is None,
        s.cleared().trigger is None,
{
}

/// While screenshots are enabled the scheduler never sleeps less than the
/// minimum interval nor less than the policy asks; otherwise it sleeps the
/// default interval.
pub proof fn law_scheduler_interval(enabled: bool, interval_seconds: u64)
    ensures
        enabled ==> scheduler_sleep(enabled, interval_seconds) >= MIN_SCREENSHOT_INTERVAL_SECS,
        enabled ==> scheduler_sleep(enabled, interval_seconds) >= interval_seconds,
        enabled && interval_seconds >= MIN_SCREENSHOT_INTERVAL_SECS ==> scheduler_sleep(
            enabled,
            interval_seconds,
        ) == interval_seconds,
        !enabled ==> scheduler_sleep(enabled, interval_seconds)
            == DEFAULT_SCREENSHOT_INTERVAL_SECS,
{
}

/// The scheduler requests a capture only when its sleep ran out while
/// screenshots are enabled, and then for every user.
pub proof fn law_scheduled_capture_needs_enabled_policy(event: ScreenshotSchedulerEvent)
    ensures
        scheduler_reaction(event) is Run ==> event == (ScreenshotSchedulerEvent::TimerElapsed {
            capture_enabled: true,
        }) && scheduler_reaction(event) == LoopAction::<Option<String>>::Run(None),
{
}

/// Every report that could be built is sent as it is, whatever its size,
/// and every failure is logged with its error; nothing else is sent or
/// logged for a capture.
pub proof fn law_built_reports_are_sent(result: Result<String, String>, step: ReportStep)
    requires
        report_step_matches(result, step),
    ensures
        result matches Ok(report) ==> (step matches ReportStep::Send(sent) && sent@ == report@),
        result matches Err(error) ==> (step matches ReportStep::Log(line) && line@
            == "Failed to build screenshot report: "@ + error@),
{
}

} // verus!
