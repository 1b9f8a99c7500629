//! The decisions of the monitor loop.
//!
//! The monitor of a session waits for events of control mode, for its
//! timers and for commands of clients. What it does on each of them is
//! decided here; reading, writing and waiting are left to the caller. Time
//! is given in milliseconds on a clock that never runs backwards.

use crate::parser::{ControlModeEvent, EventView};
use crate::events::event_step;
use crate::snapshot::{opt_update_view, update_step};
use crate::model::StateUpdate;
use crate::pane::PaneView;
use crate::state::{AggView, ChangeType, ChangeView, ResultView, StateAggregator};
use crate::text;
use std::collections::VecDeque;
use vstd::prelude::*;
use vstd::string::StringExecFns;

verus! {

/// Columns of the terminal that tmux is started in.
pub const INITIAL_PTY_COLS: u32 = 200;

/// Rows of the terminal that tmux is started in.
pub const INITIAL_PTY_ROWS: u32 = 50;

/// Milliseconds between two syncs while a pane is in copy mode.
pub const COPY_MODE_SYNC_INTERVAL: u64 = 50;

/// Milliseconds before the first reconnection attempt.
pub const INITIAL_BACKOFF: u64 = 100;

/// The most milliseconds between two reconnection attempts.
pub const MAX_BACKOFF: u64 = 10000;

/// What a client or the registry asks of a monitor.
#[derive(Debug)]
pub enum MonitorCommand {
    /// Give the windows of the session this size.
    ResizeWindow { cols: u32, rows: u32 },
    /// Run a tmux command through control mode.
    RunCommand { command: String },
    /// Detach from tmux and stop.
    Shutdown,
}

/// Where a monitor announces what it finds.
pub trait StateEmitter {
    /// Takes an update of the state of the session.
    fn emit_state(&self, update: StateUpdate);

    /// Takes the message of an error.
    fn emit_error(&self, error: String);
}

/// The settings of a monitor. Times are in milliseconds.
#[derive(Debug)]
pub struct MonitorConfig {
    /// Name of the session to attach to.
    pub session: String,
    /// Time between two syncs with tmux.
    pub sync_interval: u64,
    /// Whether to create the session where it does not exist.
    pub create_session: bool,
    /// Least time between two updates while output is throttled; 0 turns
    /// throttling off.
    pub throttle_interval: u64,
    /// Number of output events within the rate window above which output
    /// is throttled.
    pub throttle_threshold: u32,
    /// Length of the window in which output events are counted.
    pub rate_window: u64,
}

impl Clone for MonitorConfig {
    fn clone(&self) -> (c: MonitorConfig)
        ensures
            c.session@ == self.session@,
            c.sync_interval == self.sync_interval,
            c.create_session == self.create_session,
            c.throttle_interval == self.throttle_interval,
            c.throttle_threshold == self.throttle_threshold,
            c.rate_window == self.rate_window,
    {
        MonitorConfig {
            session: self.session.clone(),
            sync_interval: self.sync_interval,
            create_session: self.create_session,
            throttle_interval: self.throttle_interval,
            throttle_threshold: self.throttle_threshold,
            rate_window: self.rate_window,
        }
    }
}

impl Default for MonitorConfig {
    fn default() -> (c: MonitorConfig)
        ensures
            c.session@ == Seq::<char>::empty(),
            c.sync_interval == 500,
            !c.create_session,
            c.throttle_interval == 16,
            c.throttle_threshold == 20,
            c.rate_window == 100,
    {
        MonitorConfig {
            session: String::new(),
            sync_interval: 500,
            create_session: false,
            throttle_interval: 16,
            throttle_threshold: 20,
            rate_window: 100,
        }
    }
}

/// The settings of throttling, taken from a [`MonitorConfig`].
pub struct ThrottleConfig {
    pub interval: u64,
    pub threshold: u32,
    pub rate_window: u64,
}

/// The state of adaptive throttling.
#[derive(Debug)]
pub struct Throttle {
    /// When the last update was sent, if one was.
    pub last_emit: Option<u64>,
    /// Whether output has changed the state since the last update.
    pub pending: bool,
    /// The times of the output events of the rate window, oldest first.
    pub recent: VecDeque<u64>,
}

/// The mathematical value of a [`Throttle`].
pub struct ThrottleView {
    pub last_emit: Option<u64>,
    pub pending: bool,
    pub recent: Seq<u64>,
}

impl View for Throttle {
    type V = ThrottleView;

    open spec fn view(&self) -> ThrottleView {
        ThrottleView { last_emit: self.last_emit, pending: self.pending, recent: self.recent@ }
    }
}

/// What to do about a change of state.
#[derive(Debug, Clone, Copy, PartialEq, Eq, Structural)]
pub enum EmitDecision {
    /// Send an update now.
    EmitNow,
    /// Wait for the throttle timer.
    Defer,
}

/// Whether the least time between two updates has passed at `now`.
pub open spec fn interval_passed(t: ThrottleView, interval: u64, now: u64) -> bool {
    match t.last_emit {
        Some(last) => now >= last && now - last >= interval,
        None => true,
    }
}

/// Whether an event at `at` lies in the rate window that ends at `now`: no
/// more than `rate_window` before `now`.
pub open spec fn in_window(at: u64, now: u64, rate_window: u64) -> bool {
    now < at || now - at <= rate_window
}

/// `times` without the leading times that have left the rate window that
/// ends at `now`.
pub open spec fn trimmed(times: Seq<u64>, now: u64, rate_window: u64) -> Seq<u64>
    decreases times.len(),
{
    if times.len() == 0 || in_window(times[0], now, rate_window) {
        times
    } else {
        trimmed(times.skip(1), now, rate_window)
    }
}

/// The output events of the rate window once an output event arrives at
/// `now`: those of the last `rate_window` milliseconds, and this one.
pub open spec fn counted(t: ThrottleView, cfg: ThrottleConfig, now: u64) -> Seq<u64> {
    trimmed(t.recent, now, cfg.rate_window).push(now)
}

/// The state of throttling after an update was sent at `now`.
pub open spec fn emitted(t: ThrottleView, now: u64) -> ThrottleView {
    ThrottleView { last_emit: Some(now), pending: false, ..t }
}

/// What to do about a change of state at `now`, and the state of throttling
/// after it. A change that is not output is told at once. So is output
/// while throttling is off or no more output events than the threshold fell
/// in the last `rate_window` milliseconds, this one counted. Output above
/// the threshold is told only where the least time between two updates has
/// passed, and waits for the timer otherwise.
pub open spec fn change_step(t: ThrottleView, cfg: ThrottleConfig, is_output: bool, now: u64) -> (
    ThrottleView,
    EmitDecision,
) {
    if is_output && cfg.interval > 0 {
        let rated = ThrottleView { recent: counted(t, cfg, now), ..t };
        if rated.recent.len() > cfg.threshold && !interval_passed(t, cfg.interval, now) {
            (ThrottleView { pending: true, ..rated }, EmitDecision::Defer)
        } else {
            (emitted(rated, now), EmitDecision::EmitNow)
        }
    } else {
        (emitted(t, now), EmitDecision::EmitNow)
    }
}

/// For how long the throttle timer is to run from `now`: not at all where
/// nothing is pending or throttling is off; else for what is left of the
/// least time between two updates, and for no time where the rate window
/// holds no more events than the threshold.
pub open spec fn timer_delay(t: ThrottleView, cfg: ThrottleConfig, now: u64) -> Option<u64> {
    if !t.pending || cfg.interval == 0 {
        None
    } else if t.recent.len() > cfg.threshold && !interval_passed(t, cfg.interval, now) {
        match t.last_emit {
            Some(last) => if now >= last {
                Some((cfg.interval - (now - last)) as u64)
            } else {
                Some(cfg.interval)
            },
            None => Some(0u64),
        }
    } else {
        Some(0u64)
    }
}

impl Throttle {
    /// The state of throttling before any event: no update sent, nothing
    /// pending, no output event seen.
    pub fn new() -> (t: Throttle)
        ensures
            t@ == (ThrottleView { last_emit: None, pending: false, recent: Seq::empty() }),
    {
        Throttle { last_emit: None, pending: false, recent: VecDeque::new() }
    }

    /// Decides what to do about a change of state at `now`.
    pub fn on_state_change(&mut self, cfg: &ThrottleConfig, is_output: bool, now: u64) -> (d:
        EmitDecision)
        ensures
            (final(self)@, d) == change_step(old(self)@, *cfg, is_output, now),
            !is_output ==> d == EmitDecision::EmitNow,
            cfg.interval == 0 ==> d == EmitDecision::EmitNow,
            is_output && final(self)@.recent.len() <= cfg.threshold ==> d == EmitDecision::EmitNow,
            d == EmitDecision::EmitNow ==> final(self).last_emit == Some(now),
            d == EmitDecision::EmitNow ==> !final(self).pending,
            d == EmitDecision::Defer ==> final(self).last_emit == old(self).last_emit,
            d == EmitDecision::Defer ==> final(self).pending,
    {
        if is_output && cfg.interval > 0 {
            while self.recent.len() > 0 && now >= self.recent[0] && now - self.recent[0]
                > cfg.rate_window
                invariant
                    self.last_emit == old(self).last_emit,
                    self.pending == old(self).pending,
                    trimmed(self.recent@, now, cfg.rate_window) == trimmed(
                        old(self).recent@,
                        now,
                        cfg.rate_window,
                    ),
                decreases self.recent@.len(),
            {
                let ghost before = self.recent@;
                self.recent.pop_front();
                assert(self.recent@ =~= before.skip(1));
            }
            self.recent.push_back(now);
            let passed = match self.last_emit {
                Some(last) => now >= last && now - last >= cfg.interval,
                None => true,
            };
            if self.recent.len() > cfg.threshold as usize && !passed {
                self.pending = true;
                return EmitDecision::Defer;
            }
        }
        self.last_emit = Some(now);
        self.pending = false;
        EmitDecision::EmitNow
    }

    /// For how long the throttle timer is to run from `now`, if at all.
    pub fn timer_delay(&self, cfg: &ThrottleConfig, now: u64) -> (r: Option<u64>)
        ensures
            r == timer_delay(self@, *cfg, now),
            r.is_some() ==> r.unwrap() <= cfg.interval,
    {
        if !self.pending || cfg.interval == 0 {
            return None;
        }
        if self.recent.len() > cfg.threshold as usize {
            match self.last_emit {
                Some(last) => {
                    if now < last {
                        return Some(cfg.interval);
                    }
                    if now - last < cfg.interval {
                        return Some(cfg.interval - (now - last));
                    }
                },
                None => {},
            }
        }
        Some(0)
    }

    /// Notes that the throttle timer ran out at `now` and an update is sent.
    pub fn on_timer(&mut self, now: u64)
        ensures
            final(self)@ == emitted(old(self)@, now),
    {
        self.last_emit = Some(now);
        self.pending = false;
    }
}

/// One thing that happens to throttling: output changes the state at a
/// time, or the throttle timer runs out at a time.
pub enum Tick {
    Output { at: u64 },
    Timer { at: u64 },
}

impl Tick {
    /// The time of the tick.
    pub open spec fn at(self) -> u64 {
        match self {
            Tick::Output { at } => at,
            Tick::Timer { at } => at,
        }
    }
}

/// The state of throttling after a tick, and whether an update is sent.
pub open spec fn tick_step(t: ThrottleView, cfg: ThrottleConfig, tick: Tick) -> (
    ThrottleView,
    bool,
) {
    match tick {
        Tick::Output { at } => (
            change_step(t, cfg, true, at).0,
            change_step(t, cfg, true, at).1 == EmitDecision::EmitNow,
        ),
        Tick::Timer { at } => (emitted(t, at), true),
    }
}

/// The number of updates sent on the ticks of `trace` from index `k` on.
pub open spec fn emissions(t: ThrottleView, cfg: ThrottleConfig, trace: Seq<Tick>, k: int) -> nat
    decreases trace.len() - k,
{
    if k < 0 || k >= trace.len() {
        0
    } else {
        let step = tick_step(t, cfg, trace[k]);
        emissions(step.0, cfg, trace, k + 1) + if step.1 {
            1nat
        } else {
            0nat
        }
    }
}

/// The state of throttling after the ticks of `trace` before index `k`.
pub open spec fn state_at(
    t: ThrottleView,
    cfg: ThrottleConfig,
    trace: Seq<Tick>,
    k: int,
) -> ThrottleView
    decreases k,
{
    if k <= 0 || k > trace.len() {
        t
    } else {
        tick_step(state_at(t, cfg, trace, k - 1), cfg, trace[k - 1]).0
    }
}

/// Whether the output rate stays at or below the threshold throughout
/// `trace`: every tick is output, and with it no more output events than
/// the threshold fell in the last `rate_window` milliseconds.
pub open spec fn calm(t: ThrottleView, cfg: ThrottleConfig, trace: Seq<Tick>) -> bool {
    forall|k: int|
        0 <= k < trace.len() ==> (#[trigger] trace[k]) is Output && counted(
            state_at(t, cfg, trace, k),
            cfg,
            trace[k].at(),
        ).len() <= cfg.threshold
}

/// Whether the output rate stays above the threshold throughout `trace`:
/// with every output tick more output events than the threshold fell in
/// the last `rate_window` milliseconds, and the timer runs out only once
/// the least time between two updates has passed.
pub open spec fn hot(t: ThrottleView, cfg: ThrottleConfig, trace: Seq<Tick>) -> bool {
    forall|k: int|
        0 <= k < trace.len() ==> match #[trigger] trace[k] {
            Tick::Output { at } => counted(state_at(t, cfg, trace, k), cfg, at).len()
                > cfg.threshold,
            Tick::Timer { at } => interval_passed(state_at(t, cfg, trace, k), cfg.interval, at),
        }
}

/// Whether every tick of `trace` falls between `start` and `end`.
pub open spec fn within(trace: Seq<Tick>, start: u64, end: u64) -> bool {
    forall|k: int| 0 <= k < trace.len() ==> start <= (#[trigger] trace[k]).at() <= end
}

/// Whether the times of the ticks of `trace` never run backwards.
pub open spec fn rising(trace: Seq<Tick>) -> bool {
    forall|i: int, j: int|
        0 <= i <= j < trace.len() ==> (#[trigger] trace[i]).at() <= (#[trigger] trace[j]).at()
}

/// The times of the output ticks among the first `k` ticks of `trace`, in
/// order.
pub open spec fn outputs(trace: Seq<Tick>, k: int) -> Seq<u64>
    decreases k,
{
    if k <= 0 || k > trace.len() {
        Seq::empty()
    } else {
        match trace[k - 1] {
            Tick::Output { at } => outputs(trace, k - 1).push(at),
            Tick::Timer { at } => outputs(trace, k - 1),
        }
    }
}

/// The times in `times` that lie in the rate window that ends at `now`, in
/// order.
pub open spec fn in_rate_window(times: Seq<u64>, now: u64, rate_window: u64) -> Seq<u64>
    decreases times.len(),
{
    if times.len() == 0 {
        Seq::empty()
    } else if in_window(times[0], now, rate_window) {
        seq![times[0]] + in_rate_window(times.skip(1), now, rate_window)
    } else {
        in_rate_window(times.skip(1), now, rate_window)
    }
}

/// Whether the times in `times` never run backwards and none is later than
/// `now`.
pub open spec fn rising_to(times: Seq<u64>, now: u64) -> bool {
    &&& forall|i: int, j: int| 0 <= i <= j < times.len() ==> times[i] <= times[j]
    &&& forall|i: int| 0 <= i < times.len() ==> times[i] <= now
}

proof fn lemma_all_in_window(times: Seq<u64>, now: u64, rate_window: u64)
    requires
        forall|i: int| 0 <= i < times.len() ==> in_window(times[i], now, rate_window),
    ensures
        in_rate_window(times, now, rate_window) == times,
    decreases times.len(),
{
    if times.len() > 0 {
        lemma_all_in_window(times.skip(1), now, rate_window);
        assert(seq![times[0]] + times.skip(1) =~= times);
    }
}

/// Where times never run backwards, the times left after the leading ones
/// that have left the rate window are dropped are all the times in the
/// window.
pub proof fn lemma_trimmed_is_window(times: Seq<u64>, now: u64, rate_window: u64)
    requires
        rising_to(times, now),
    ensures
        trimmed(times, now, rate_window) == in_rate_window(times, now, rate_window),
    decreases times.len(),
{
    if times.len() > 0 {
        if in_window(times[0], now, rate_window) {
            assert forall|i: int| 0 <= i < times.len() implies in_window(
                times[i],
                now,
                rate_window,
            ) by {
                assert(times[0] <= times[i]);
            }
            lemma_all_in_window(times, now, rate_window);
        } else {
            let rest = times.skip(1);
            assert forall|i: int, j: int| 0 <= i <= j < rest.len() implies rest[i] <= rest[j] by {
                assert(rest[i] == times[i + 1] && rest[j] == times[j + 1]);
            }
            lemma_trimmed_is_window(rest, now, rate_window);
        }
    }
}

proof fn lemma_trimmed_later(
    times: Seq<u64>,
    more: Seq<u64>,
    earlier: u64,
    now: u64,
    rate_window: u64,
)
    requires
        earlier <= now,
    ensures
        trimmed(trimmed(times, earlier, rate_window) + more, now, rate_window) == trimmed(
            times + more,
            now,
            rate_window,
        ),
    decreases times.len(),
{
    if times.len() > 0 && !in_window(times[0], earlier, rate_window) {
        assert(!in_window(times[0], now, rate_window));
        assert((times + more)[0] == times[0]);
        assert((times + more).skip(1) =~= times.skip(1) + more);
        lemma_trimmed_later(times.skip(1), more, earlier, now, rate_window);
    }
}

/// The time of the last output tick among the first `k` ticks of `trace`,
/// or 0 where there is none.
pub open spec fn last_output(trace: Seq<Tick>, k: int) -> u64
    decreases k,
{
    if k <= 0 || k > trace.len() {
        0
    } else {
        match trace[k - 1] {
            Tick::Output { at } => at,
            Tick::Timer { at } => last_output(trace, k - 1),
        }
    }
}

proof fn lemma_outputs_rising(trace: Seq<Tick>, k: int, now: u64)
    requires
        0 <= k <= trace.len(),
        rising(trace),
        k > 0 ==> trace[k - 1].at() <= now,
    ensures
        rising_to(outputs(trace, k), now),
        last_output(trace, k) <= now,
    decreases k,
{
    if k > 0 {
        assert(k - 1 > 0 ==> trace[k - 2].at() <= trace[k - 1].at());
        lemma_outputs_rising(trace, k - 1, trace[k - 1].at());
        let before = outputs(trace, k - 1);
        match trace[k - 1] {
            Tick::Output { at } => {
                let all = outputs(trace, k);
                assert forall|i: int, j: int| 0 <= i <= j < all.len() implies all[i] <= all[j] by {
                    if j < before.len() {
                        assert(all[i] == before[i] && all[j] == before[j]);
                    } else if i < before.len() {
                        assert(all[i] == before[i]);
                    }
                }
                assert forall|i: int| 0 <= i < all.len() implies all[i] <= now by {
                    if i < before.len() {
                        assert(all[i] == before[i]);
                    }
                }
            },
            Tick::Timer { at } => {},
        }
    }
}

proof fn lemma_recent_follows_trace(cfg: ThrottleConfig, trace: Seq<Tick>, k: int)
    requires
        0 <= k <= trace.len(),
        cfg.interval > 0,
        rising(trace),
    ensures
        state_at(fresh(), cfg, trace, k).recent == trimmed(
            outputs(trace, k),
            last_output(trace, k),
            cfg.rate_window,
        ),
    decreases k,
{
    if k > 0 {
        lemma_recent_follows_trace(cfg, trace, k - 1);
        let before = state_at(fresh(), cfg, trace, k - 1);
        match trace[k - 1] {
            Tick::Output { at } => {
                assert(k - 1 > 0 ==> trace[k - 2].at() <= trace[k - 1].at());
                lemma_outputs_rising(trace, k - 1, at);
                let all = outputs(trace, k - 1);
                lemma_trimmed_later(
                    all,
                    Seq::empty(),
                    last_output(trace, k - 1),
                    at,
                    cfg.rate_window,
                );
                assert(all + Seq::<u64>::empty() =~= all);
                assert(before.recent + Seq::<u64>::empty() =~= before.recent);
                lemma_trimmed_push(all, at, cfg.rate_window);
            },
            Tick::Timer { at } => {},
        }
    }
}

proof fn lemma_trimmed_push(times: Seq<u64>, now: u64, rate_window: u64)
    ensures
        trimmed(times.push(now), now, rate_window) == trimmed(times, now, rate_window).push(now),
    decreases times.len(),
{
    if times.len() > 0 {
        assert(times.push(now)[0] == times[0]);
        if !in_window(times[0], now, rate_window) {
            assert(times.push(now).skip(1) =~= times.skip(1).push(now));
            lemma_trimmed_push(times.skip(1), now, rate_window);
        }
    } else {
        assert(in_window(now, now, rate_window));
    }
}

/// The state of throttling before any event.
pub open spec fn fresh() -> ThrottleView {
    ThrottleView { last_emit: None, pending: false, recent: Seq::empty() }
}

/// The rate is counted over a sliding window: along a run that begins with
/// fresh throttling and whose times never run backwards, the output events
/// counted with an output event are exactly the output events of the run
/// so far, this one among them, that lie no more than `rate_window` back.
pub proof fn lemma_counted_is_window(cfg: ThrottleConfig, trace: Seq<Tick>, k: int)
    requires
        0 <= k < trace.len(),
        cfg.interval > 0,
        rising(trace),
        trace[k] is Output,
    ensures
        counted(state_at(fresh(), cfg, trace, k), cfg, trace[k].at()) == in_rate_window(
            outputs(trace, k + 1),
            trace[k].at(),
            cfg.rate_window,
        ),
{
    let at = trace[k].at();
    let all = outputs(trace, k);
    lemma_recent_follows_trace(cfg, trace, k);
    assert(k > 0 ==> trace[k - 1].at() <= trace[k].at());
    lemma_outputs_rising(trace, k, at);
    lemma_trimmed_later(all, Seq::empty(), last_output(trace, k), at, cfg.rate_window);
    assert(all + Seq::<u64>::empty() =~= all);
    let recent = state_at(fresh(), cfg, trace, k).recent;
    assert(recent + Seq::<u64>::empty() =~= recent);
    lemma_trimmed_push(all, at, cfg.rate_window);
    assert(outputs(trace, k + 1) == all.push(at));
    lemma_outputs_rising(trace, k + 1, at);
    lemma_trimmed_is_window(all.push(at), at, cfg.rate_window);
}

proof fn lemma_state_at_next(t: ThrottleView, cfg: ThrottleConfig, trace: Seq<Tick>, k: int)
    requires
        0 <= k < trace.len(),
    ensures
        state_at(t, cfg, trace, k + 1) == tick_step(state_at(t, cfg, trace, k), cfg, trace[k]).0,
{
}

proof fn lemma_calm_from(t: ThrottleView, cfg: ThrottleConfig, trace: Seq<Tick>, k: int)
    requires
        0 <= k <= trace.len(),
        calm(t, cfg, trace),
    ensures
        emissions(state_at(t, cfg, trace, k), cfg, trace, k) == trace.len() - k,
    decreases trace.len() - k,
{
    if k < trace.len() {
        assert(trace[k] is Output);
        lemma_state_at_next(t, cfg, trace, k);
        lemma_calm_from(t, cfg, trace, k + 1);
    }
}

/// While the output rate stays at or below the threshold, every output
/// event sends an update.
pub proof fn lemma_calm_emits_all(t: ThrottleView, cfg: ThrottleConfig, trace: Seq<Tick>)
    requires
        calm(t, cfg, trace),
    ensures
        emissions(t, cfg, trace, 0) == trace.len(),
{
    lemma_calm_from(t, cfg, trace, 0);
}

/// The earliest time at or after `start` at which throttled output may
/// send the next update.
pub open spec fn ready_at(t: ThrottleView, interval: u64, start: u64) -> int {
    match t.last_emit {
        Some(last) => if last + interval > start {
            last + interval
        } else {
            start as int
        },
        None => start as int,
    }
}

proof fn lemma_hot_from(
    t: ThrottleView,
    cfg: ThrottleConfig,
    trace: Seq<Tick>,
    k: int,
    start: u64,
    end: u64,
)
    requires
        0 <= k <= trace.len(),
        cfg.interval > 0,
        hot(t, cfg, trace),
        within(trace, start, end),
    ensures
        ready_at(state_at(t, cfg, trace, k), cfg.interval, start) > end ==> emissions(
            state_at(t, cfg, trace, k),
            cfg,
            trace,
            k,
        ) == 0,
        ready_at(state_at(t, cfg, trace, k), cfg.interval, start) <= end ==> emissions(
            state_at(t, cfg, trace, k),
            cfg,
            trace,
            k,
        ) * cfg.interval <= end - ready_at(state_at(t, cfg, trace, k), cfg.interval, start)
            + cfg.interval,
    decreases trace.len() - k,
{
    if k < trace.len() {
        let now = state_at(t, cfg, trace, k);
        let next = state_at(t, cfg, trace, k + 1);
        let tick = trace[k];
        lemma_state_at_next(t, cfg, trace, k);
        lemma_hot_from(t, cfg, trace, k + 1, start, end);
        let rest = emissions(next, cfg, trace, k + 1);
        let i = cfg.interval as int;
        assert(start <= tick.at() <= end);
        if tick_step(now, cfg, tick).1 {
            assert(interval_passed(now, cfg.interval, tick.at()));
            assert(next.last_emit == Some(tick.at()));
            assert(tick.at() >= ready_at(now, cfg.interval, start));
            assert(ready_at(next, cfg.interval, start) == tick.at() + i);
            assert((rest + 1) * i == rest * i + i) by (nonlinear_arith);
            if tick.at() + i > end {
                assert(rest == 0);
            }
        } else {
            assert(next.last_emit == now.last_emit);
        }
    }
}

/// While the output rate stays above the threshold, updates are at least
/// the least time between two updates apart: over a stretch of time of
/// length `end - start`, no more than `(end - start) / interval + 1` are
/// sent, however many output events arrive.
pub proof fn lemma_hot_emissions_bounded(
    t: ThrottleView,
    cfg: ThrottleConfig,
    trace: Seq<Tick>,
    start: u64,
    end: u64,
)
    requires
        cfg.interval > 0,
        start <= end,
        hot(t, cfg, trace),
        within(trace, start, end),
    ensures
        emissions(t, cfg, trace, 0) <= (end - start) / (cfg.interval as int) + 1,
{
    lemma_hot_from(t, cfg, trace, 0, start, end);
    let n = emissions(t, cfg, trace, 0) as int;
    let i = cfg.interval as int;
    let span = end - start;
    let ready = ready_at(t, cfg.interval, start);
    assert(ready >= start);
    if ready <= end {
        assert(n * i <= span + i);
        assert(n <= span / i + 1) by (nonlinear_arith)
            requires
                n * i <= span + i,
                i > 0,
                span >= 0,
                n >= 0,
        ;
    } else {
        assert(span / i >= 0) by (nonlinear_arith)
            requires
                i > 0,
                span >= 0,
        ;
    }
}

/// Whether output floods the run `trace`, which begins with fresh
/// throttling: with every output tick, more output ticks of the run than
/// the threshold lie no more than `rate_window` back, this one counted; and
/// the timer runs out only once the least time between two updates has
/// passed.
pub open spec fn flooded(cfg: ThrottleConfig, trace: Seq<Tick>) -> bool {
    forall|k: int|
        0 <= k < trace.len() ==> match #[trigger] trace[k] {
            Tick::Output { at } => in_rate_window(outputs(trace, k + 1), at, cfg.rate_window).len()
                > cfg.threshold,
            Tick::Timer { at } => interval_passed(
                state_at(fresh(), cfg, trace, k),
                cfg.interval,
                at,
            ),
        }
}

/// While output arrives at a rate above the threshold, counted over a
/// sliding window, no more than `(end - start) / interval + 1` updates are
/// sent between `start` and `end`, however many output events arrive.
pub proof fn lemma_flood_emissions_bounded(
    cfg: ThrottleConfig,
    trace: Seq<Tick>,
    start: u64,
    end: u64,
)
    requires
        cfg.interval > 0,
        start <= end,
        rising(trace),
        flooded(cfg, trace),
        within(trace, start, end),
    ensures
        emissions(fresh(), cfg, trace, 0) <= (end - start) / (cfg.interval as int) + 1,
{
    assert forall|k: int| 0 <= k < trace.len() implies match #[trigger] trace[k] {
        Tick::Output { at } => counted(state_at(fresh(), cfg, trace, k), cfg, at).len()
            > cfg.threshold,
        Tick::Timer { at } => interval_passed(state_at(fresh(), cfg, trace, k), cfg.interval, at),
    } by {
        if trace[k] is Output {
            lemma_counted_is_window(cfg, trace, k);
        }
    }
    lemma_hot_emissions_bounded(fresh(), cfg, trace, start, end);
}

/// The command that lists the windows of the session, one line for each.
pub const LIST_WINDOWS_COMMAND: &'static str =
    "list-windows -F '#{window_id},#{window_index},#{window_name},#{window_active},#{@float_parent},#{@float_width},#{@float_height}'";

/// The command that lists the panes of the session, one line for each.
pub const LIST_PANES_COMMAND: &'static str =
    "list-panes -s -F '#{pane_id},#{pane_index},#{pane_left},#{pane_top},#{pane_width},#{pane_height},#{cursor_x},#{cursor_y},#{pane_active},#{pane_current_command},#{pane_title},#{pane_in_mode},#{copy_cursor_x},#{copy_cursor_y},#{window_id},#{T:pane-border-format},#{alternate_on},#{mouse_any_flag},#{@tmuxy_pane_group_id},#{@tmuxy_pane_group_index}'";

/// The command that makes tmux pause a pane whose output the client is
/// five seconds behind with.
pub const FLOW_CONTROL_COMMAND: &'static str = "refresh-client -f pause-after=5";

/// The command that detaches the client from tmux.
pub const DETACH_COMMAND: &'static str = "detach-client";

/// The command that captures what the pane `id` shows.
pub open spec fn capture_command(id: Seq<char>) -> Seq<char> {
    "capture-pane -t "@ + id + " -p -e"@
}

/// The command that captures the `height` lines of the pane `id` that end
/// `scroll` lines above the bottom of its history.
pub open spec fn capture_range_command(id: Seq<char>, scroll: u32, height: u32) -> Seq<char> {
    "capture-pane -t "@ + id + " -p -e -S "@ + text::signed_decimal(1 - scroll - height) + " -E "@
        + text::signed_decimal(-(scroll as int))
}

/// The command that captures what the pane `id` shows in copy mode when it
/// is scrolled back by `scroll` lines. A pane that is not scrolled back is
/// not captured.
pub open spec fn copy_capture_command(id: Seq<char>, scroll: u32, height: u32) -> Option<
    Seq<char>,
> {
    if scroll > 0 {
        Some(capture_range_command(id, scroll, height))
    } else {
        None
    }
}

/// The command that resumes the output of the pane `id`.
pub open spec fn continue_command(id: Seq<char>) -> Seq<char> {
    "refresh-client -A '"@ + id + ":continue'"@
}

/// The command that gives the windows the size `cols` by `rows`.
pub open spec fn resize_command(cols: u32, rows: u32) -> Seq<char> {
    "resizew -x "@ + text::decimal(cols as nat) + " -y "@ + text::decimal(rows as nat)
}

/// The command that gives the session `session` the size of the terminal
/// that tmux was started in.
pub open spec fn initial_resize_command(session: Seq<char>) -> Seq<char> {
    "resizew -t "@ + session + " -x "@ + text::decimal(INITIAL_PTY_COLS as nat) + " -y "@
        + text::decimal(INITIAL_PTY_ROWS as nat)
}

/// The command that loads the configuration file `path`.
pub open spec fn source_file_command(path: Seq<char>) -> Seq<char> {
    "source-file "@ + path
}

/// The command `command` of a client as control mode takes it: clients
/// write the separator of commands as ` \; `, control mode reads ` ; `.
pub open spec fn unescaped(command: Seq<char>) -> Seq<char> {
    text::replace(command, " \\; "@, " ; "@)
}

fn push_signed(out: &mut Vec<char>, v: i64)
    requires
        v > i64::MIN,
    ensures
        final(out)@ == old(out)@ + text::signed_decimal(v as int),
{
    if v < 0 {
        out.push('-');
        let ghost mid = out@;
        text::push_decimal(out, (-v) as u64);
        assert(out@ =~= old(out)@ + (seq!['-'] + text::decimal((-v) as nat)));
    } else {
        text::push_decimal(out, v as u64);
    }
}

/// The command that captures what the pane `pane_id` shows.
pub fn capture_pane_command(pane_id: &str) -> (c: String)
    ensures
        c@ == capture_command(pane_id@),
{
    let mut c = text::string_of_str("capture-pane -t ");
    c.append(pane_id);
    c.append(" -p -e");
    c
}

/// The command that captures what the pane `pane_id` shows in copy mode
/// when it is scrolled back by `scroll` lines, if it is scrolled back.
pub fn copy_mode_capture_command(pane_id: &str, scroll: u32, height: u32) -> (r: Option<String>)
    ensures
        text::opt_view(r) == copy_capture_command(pane_id@, scroll, height),
{
    if scroll == 0 {
        return None;
    }
    let mut c = text::string_of_str("capture-pane -t ");
    c.append(pane_id);
    c.append(" -p -e -S ");
    let mut start: Vec<char> = Vec::new();
    push_signed(&mut start, 1 - (scroll as i64) - (height as i64));
    assert(start@ =~= text::signed_decimal(1 - scroll - height));
    c.append(text::string_of(start.as_slice()).as_str());
    c.append(" -E ");
    let mut end: Vec<char> = Vec::new();
    push_signed(&mut end, -(scroll as i64));
    assert(end@ =~= text::signed_decimal(-(scroll as int)));
    c.append(text::string_of(end.as_slice()).as_str());
    Some(c)
}

/// The command that resumes the output of the pane `pane_id`.
pub fn continue_pane_command(pane_id: &str) -> (c: String)
    ensures
        c@ == continue_command(pane_id@),
{
    let mut c = text::string_of_str("refresh-client -A '");
    c.append(pane_id);
    c.append(":continue'");
    c
}

/// The command that gives the windows the size `cols` by `rows`.
pub fn resize_window_command(cols: u32, rows: u32) -> (c: String)
    ensures
        c@ == resize_command(cols, rows),
{
    let mut c = text::string_of_str("resizew -x ");
    c.append(text::decimal_string(cols as u64).as_str());
    c.append(" -y ");
    c.append(text::decimal_string(rows as u64).as_str());
    c
}

/// The command `command` of a client as control mode takes it.
pub fn unescape_command(command: &str) -> (c: String)
    ensures
        c@ == unescaped(command@),
{
    let chars = text::chars_of(command);
    let pat = text::chars_of(" \\; ");
    let with = text::chars_of(" ; ");
    let out = text::replace_chars(chars.as_slice(), pat.as_slice(), with.as_slice());
    text::string_of(out.as_slice())
}

/// The commands that a monitor sends first: the size of the session, the
/// configuration file where there is one, flow control, and the listings of
/// windows and panes.
pub open spec fn initial_command_list(session: Seq<char>, config_path: Option<Seq<char>>) -> Seq<
    Seq<char>,
> {
    seq![initial_resize_command(session)] + (match config_path {
        Some(path) => seq![source_file_command(path)],
        None => Seq::empty(),
    }) + seq![FLOW_CONTROL_COMMAND@, LIST_WINDOWS_COMMAND@, LIST_PANES_COMMAND@]
}

/// The commands that a monitor sends first.
pub fn initial_commands(session: &str, config_path: Option<&str>) -> (cmds: Vec<String>)
    ensures
        text::str_views(cmds@) == initial_command_list(
            session@,
            match config_path {
                Some(p) => Some(p@),
                None => None,
            },
        ),
{
    let mut cmds: Vec<String> = Vec::new();
    let mut resize = text::string_of_str("resizew -t ");
    resize.append(session);
    resize.append(" -x ");
    resize.append(text::decimal_string(INITIAL_PTY_COLS as u64).as_str());
    resize.append(" -y ");
    resize.append(text::decimal_string(INITIAL_PTY_ROWS as u64).as_str());
    cmds.push(resize);
    if let Some(path) = config_path {
        let mut source = text::string_of_str("source-file ");
        source.append(path);
        cmds.push(source);
    }
    cmds.push(text::string_of_str(FLOW_CONTROL_COMMAND));
    cmds.push(text::string_of_str(LIST_WINDOWS_COMMAND));
    cmds.push(text::string_of_str(LIST_PANES_COMMAND));
    assert(text::str_views(cmds@) =~= initial_command_list(
        session@,
        match config_path {
            Some(p) => Some(p@),
            None => None,
        },
    ));
    cmds
}

/// The commands that capture the panes `ids`, one for each, in order.
pub open spec fn capture_command_list(ids: Seq<Seq<char>>) -> Seq<Seq<char>> {
    Seq::new(ids.len(), |i: int| capture_command(ids[i]))
}

/// The commands that capture the panes `pane_ids`.
pub fn capture_commands(pane_ids: &[String]) -> (cmds: Vec<String>)
    ensures
        text::str_views(cmds@) == capture_command_list(text::str_views(pane_ids@)),
{
    let mut cmds: Vec<String> = Vec::new();
    let mut i: usize = 0;
    while i < pane_ids.len()
        invariant
            i <= pane_ids@.len(),
            cmds@.len() == i,
            forall|j: int| 0 <= j < i ==> (#[trigger] cmds@[j])@ == capture_command(pane_ids@[j]@),
        decreases pane_ids@.len() - i,
    {
        cmds.push(capture_pane_command(pane_ids[i].as_str()));
        i += 1;
    }
    assert(text::str_views(cmds@) =~= capture_command_list(text::str_views(pane_ids@)));
    cmds
}

/// A pane in copy mode, as the periodic sync needs it.
#[derive(Debug)]
pub struct CopyModePane {
    /// Identifier of the pane.
    pub id: String,
    /// By how many lines the pane is scrolled back.
    pub scroll_position: u32,
    /// Height of the pane.
    pub height: u32,
}

/// The format in which tmux is asked by how many lines each pane is
/// scrolled back: the identifier of the pane, a comma, and the number.
pub const SCROLL_FORMAT: &'static str = "#{pane_id},#{scroll_position}";

/// By how many lines the pane `id` is scrolled back according to the lines
/// from index `k` on, each in the [`SCROLL_FORMAT`]: the number in the
/// first line of the pane; 0 where no line is of the pane or the line gives
/// no number.
pub open spec fn scroll_of(lines: Seq<Seq<char>>, id: Seq<char>, k: int) -> u32
    decreases lines.len() - k,
{
    if k < 0 || k >= lines.len() {
        0
    } else if text::split(lines[k], ',').len() >= 2 && text::split(lines[k], ',')[0] == id {
        match text::parse_u32_spec(text::split(lines[k], ',')[1]) {
            Some(n) => n,
            None => 0,
        }
    } else {
        scroll_of(lines, id, k + 1)
    }
}

/// The panes in copy mode among `panes` from index `k` on, each with its
/// identifier, by how many lines it is scrolled back according to `lines`,
/// and its height.
pub open spec fn copy_mode_panes(panes: Seq<PaneView>, lines: Seq<Seq<char>>, k: int) -> Seq<
    (Seq<char>, u32, u32),
>
    decreases panes.len() - k,
{
    if k < 0 || k >= panes.len() {
        Seq::empty()
    } else if panes[k].in_mode {
        seq![(panes[k].id, scroll_of(lines, panes[k].id, 0), panes[k].height)] + copy_mode_panes(
            panes,
            lines,
            k + 1,
        )
    } else {
        copy_mode_panes(panes, lines, k + 1)
    }
}

/// Identifier, scroll position and height of the panes in `v`, in order.
pub open spec fn copy_pane_views(v: Seq<CopyModePane>) -> Seq<(Seq<char>, u32, u32)> {
    Seq::new(v.len(), |i: int| (v[i].id@, v[i].scroll_position, v[i].height))
}

fn scroll_position_of(lines: &Vec<Vec<char>>, id: &[char]) -> (n: u32)
    ensures
        n == scroll_of(text::views(lines@), id@, 0),
{
    let ghost all = text::views(lines@);
    let mut k: usize = 0;
    while k < lines.len()
        invariant
            k <= lines@.len(),
            all == text::views(lines@),
            scroll_of(all, id@, 0) == scroll_of(all, id@, k as int),
        decreases lines@.len() - k,
    {
        assert(all[k as int] == lines@[k as int]@);
        let parts = text::split_chars(lines[k].as_slice(), ',');
        if parts.len() >= 2 {
            assert(text::views(parts@)[0] == parts@[0]@);
            assert(text::views(parts@)[1] == parts@[1]@);
            if text::chars_eq(parts[0].as_slice(), id) {
                return match text::parse_u32(parts[1].as_slice()) {
                    Some(n) => n,
                    None => 0,
                };
            }
        }
        k += 1;
    }
    0
}

/// What a periodic sync sends.
#[derive(Debug)]
pub struct SyncPlan {
    /// The commands to send in one batch.
    pub commands: Vec<String>,
    /// The panes of which the commands ask a capture, in order.
    pub captures: Vec<String>,
    /// Whether this is a full sync, which lists windows and panes.
    pub full: bool,
    /// In how many milliseconds the next sync is due.
    pub next_in: u64,
}

/// The mathematical value of a [`SyncPlan`].
pub struct SyncPlanView {
    pub commands: Seq<Seq<char>>,
    pub captures: Seq<Seq<char>>,
    pub full: bool,
    pub next_in: u64,
}

impl View for SyncPlan {
    type V = SyncPlanView;

    open spec fn view(&self) -> SyncPlanView {
        SyncPlanView {
            commands: text::str_views(self.commands@),
            captures: text::str_views(self.captures@),
            full: self.full,
            next_in: self.next_in,
        }
    }
}

/// The commands that capture the panes in copy mode that are scrolled
/// back, from index `k` on.
pub open spec fn copy_capture_list(panes: Seq<CopyModePane>, k: int) -> Seq<Seq<char>>
    decreases panes.len() - k,
{
    if k < 0 || k >= panes.len() {
        Seq::empty()
    } else {
        match copy_capture_command(panes[k].id@, panes[k].scroll_position, panes[k].height) {
            Some(c) => seq![c] + copy_capture_list(panes, k + 1),
            None => copy_capture_list(panes, k + 1),
        }
    }
}

/// The identifiers of the panes in copy mode that are scrolled back, from
/// index `k` on.
pub open spec fn copy_pane_ids(panes: Seq<CopyModePane>, k: int) -> Seq<Seq<char>>
    decreases panes.len() - k,
{
    if k < 0 || k >= panes.len() {
        Seq::empty()
    } else if panes[k].scroll_position > 0 {
        seq![panes[k].id@] + copy_pane_ids(panes, k + 1)
    } else {
        copy_pane_ids(panes, k + 1)
    }
}

/// What a periodic sync sends. While a pane is in copy mode, the sync lists
/// the panes only and captures each pane in copy mode that is scrolled
/// back; otherwise it lists the windows and the panes. The next sync is due
/// after 50 ms in copy mode and after the sync interval otherwise.
pub open spec fn sync_plan(
    in_copy_mode: bool,
    sync_interval: u64,
    copy_panes: Seq<CopyModePane>,
) -> SyncPlanView {
    if in_copy_mode {
        SyncPlanView {
            commands: seq![LIST_PANES_COMMAND@] + copy_capture_list(copy_panes, 0),
            captures: copy_pane_ids(copy_panes, 0),
            full: false,
            next_in: COPY_MODE_SYNC_INTERVAL,
        }
    } else {
        SyncPlanView {
            commands: seq![LIST_WINDOWS_COMMAND@, LIST_PANES_COMMAND@],
            captures: Seq::empty(),
            full: true,
            next_in: sync_interval,
        }
    }
}

/// Plans a periodic sync.
pub fn sync_commands(in_copy_mode: bool, sync_interval: u64, copy_panes: &[CopyModePane]) -> (plan:
    SyncPlan)
    ensures
        plan@ == sync_plan(in_copy_mode, sync_interval, copy_panes@),
{
    let mut commands: Vec<String> = Vec::new();
    let mut captures: Vec<String> = Vec::new();
    if in_copy_mode {
        commands.push(text::string_of_str(LIST_PANES_COMMAND));
        let ghost head = text::str_views(commands@);
        assert(head =~= seq![LIST_PANES_COMMAND@]);
        assert(text::str_views(captures@) =~= Seq::empty());
        let mut k: usize = 0;
        while k < copy_panes.len()
            invariant
                k <= copy_panes@.len(),
                head == seq![LIST_PANES_COMMAND@],
                head + copy_capture_list(copy_panes@, 0) == text::str_views(commands@)
                    + copy_capture_list(copy_panes@, k as int),
                copy_pane_ids(copy_panes@, 0) == text::str_views(captures@) + copy_pane_ids(
                    copy_panes@,
                    k as int,
                ),
            decreases copy_panes@.len() - k,
        {
            let p = &copy_panes[k];
            let ghost before = text::str_views(commands@);
            let ghost ids = text::str_views(captures@);
            match copy_mode_capture_command(p.id.as_str(), p.scroll_position, p.height) {
                Some(c) => {
                    commands.push(c);
                    assert(text::str_views(commands@) =~= before.push(c@));
                    assert(head + copy_capture_list(copy_panes@, 0) =~= text::str_views(commands@)
                        + copy_capture_list(copy_panes@, k + 1));
                    captures.push(p.id.clone());
                    assert(text::str_views(captures@) =~= ids.push(p.id@));
                    assert(copy_pane_ids(copy_panes@, 0) =~= text::str_views(captures@)
                        + copy_pane_ids(copy_panes@, k + 1));
                },
                None => {},
            }
            k += 1;
        }
        assert(text::str_views(commands@) + Seq::<Seq<char>>::empty() =~= text::str_views(
            commands@,
        ));
        assert(text::str_views(captures@) + Seq::<Seq<char>>::empty() =~= text::str_views(
            captures@,
        ));
        SyncPlan { commands, captures, full: false, next_in: COPY_MODE_SYNC_INTERVAL }
    } else {
        commands.push(text::string_of_str(LIST_WINDOWS_COMMAND));
        commands.push(text::string_of_str(LIST_PANES_COMMAND));
        assert(text::str_views(commands@) =~= seq![LIST_WINDOWS_COMMAND@, LIST_PANES_COMMAND@]);
        assert(text::str_views(captures@) =~= Seq::empty());
        SyncPlan { commands, captures, full: true, next_in: sync_interval }
    }
}

/// The time to wait before the reconnection attempt after one that waited
/// `backoff` milliseconds: twice as long, and 10 s at most.
pub fn next_backoff(backoff: u64) -> (r: u64)
    ensures
        r == if backoff * 2 > MAX_BACKOFF {
            MAX_BACKOFF
        } else {
            (backoff * 2) as u64
        },
{
    if backoff > MAX_BACKOFF / 2 {
        MAX_BACKOFF
    } else {
        backoff * 2
    }
}

/// What the caller of the monitor loop is to do next.
#[derive(Debug)]
pub enum LoopAction {
    /// Write one command to tmux and flush.
    SendCommand { command: String },
    /// Write the commands to tmux and flush once.
    SendBatch { commands: Vec<String> },
    /// Ask the monitor for the update to send, and hand it to the emitter.
    EmitState,
    /// Hand an error to the emitter.
    EmitError { message: String },
    /// Detach from tmux and wait for it to exit, without ever killing it.
    GracefulClose,
    /// Leave the loop.
    Stop,
}

/// The mathematical value of a [`LoopAction`].
pub enum ActionView {
    SendCommand { command: Seq<char> },
    SendBatch { commands: Seq<Seq<char>> },
    EmitState,
    EmitError { message: Seq<char> },
    GracefulClose,
    Stop,
}

impl View for LoopAction {
    type V = ActionView;

    open spec fn view(&self) -> ActionView {
        match *self {
            LoopAction::SendCommand { command } => ActionView::SendCommand { command: command@ },
            LoopAction::SendBatch { commands } => ActionView::SendBatch {
                commands: text::str_views(commands@),
            },
            LoopAction::EmitState => ActionView::EmitState,
            LoopAction::EmitError { message } => ActionView::EmitError { message: message@ },
            LoopAction::GracefulClose => ActionView::GracefulClose,
            LoopAction::Stop => ActionView::Stop,
        }
    }
}

/// The views of the actions in `v`, in order.
pub open spec fn action_views(v: Seq<LoopAction>) -> Seq<ActionView> {
    Seq::new(v.len(), |i: int| v[i]@)
}

/// The state of a monitor loop.
pub struct MonitorState {
    /// The model of the session.
    pub aggregator: StateAggregator,
    /// The state of throttling.
    pub throttle: Throttle,
    /// When the next sync is due.
    pub next_sync_at: u64,
}

/// The mathematical value of a [`MonitorState`].
pub struct MonitorView {
    pub agg: AggView,
    pub throttle: ThrottleView,
    pub next_sync_at: u64,
}

impl View for MonitorState {
    type V = MonitorView;

    open spec fn view(&self) -> MonitorView {
        MonitorView {
            agg: self.aggregator@,
            throttle: self.throttle@,
            next_sync_at: self.next_sync_at,
        }
    }
}

/// `a + b`, or the largest 64-bit number where the sum is larger.
pub open spec fn capped(a: u64, b: u64) -> u64 {
    if a + b > u64::MAX {
        u64::MAX
    } else {
        (a + b) as u64
    }
}

fn capped_add(a: u64, b: u64) -> (r: u64)
    ensures
        r == capped(a, b),
{
    if a > u64::MAX - b {
        u64::MAX
    } else {
        a + b
    }
}

/// The settings of throttling in `cfg`.
pub open spec fn throttle_settings(cfg: MonitorConfig) -> ThrottleConfig {
    ThrottleConfig {
        interval: cfg.throttle_interval,
        threshold: cfg.throttle_threshold,
        rate_window: cfg.rate_window,
    }
}

/// What follows from the report of an event, in this order: a batch of
/// captures for the panes to capture anew; an update where one is to be
/// sent now; and, once clients have been told that flow control paused a
/// pane, the command that resumes the pane.
pub open spec fn event_actions(result: ResultView, emit: bool) -> Seq<ActionView> {
    (if result.refresh.len() > 0 {
        seq![ActionView::SendBatch { commands: capture_command_list(result.refresh) }]
    } else {
        Seq::empty()
    }) + (if emit {
        seq![ActionView::EmitState]
    } else {
        Seq::empty()
    }) + (match result.change {
        ChangeView::FlowPause { pane_id } => seq![
            ActionView::SendCommand { command: continue_command(pane_id) },
        ],
        _ => Seq::empty(),
    })
}

/// The message of the error that ends the loop when tmux says that it
/// exits.
pub open spec fn exit_message(reason: Option<Seq<char>>) -> Seq<char> {
    "Control mode exited: "@ + match reason {
        Some(r) => r,
        None => "disconnected"@,
    }
}

/// The monitor after an event of control mode at `now`, or after the end of
/// the stream where `event` is `None`, and what to do. The end of the
/// stream and the exit of tmux end the loop with an error. Every other
/// event goes to the model; the panes to capture anew are queued and
/// captured in one batch, and whether an update is sent is for throttling
/// to decide.
pub open spec fn on_event_step(st: MonitorView, cfg: MonitorConfig, event: Option<EventView>, now: u64) -> (
    MonitorView,
    Seq<ActionView>,
) {
    match event {
        None => (
            st,
            seq![
                ActionView::EmitError { message: "Control mode connection closed"@ },
                ActionView::Stop,
            ],
        ),
        Some(EventView::Exit { reason }) => (
            st,
            seq![ActionView::EmitError { message: exit_message(reason) }, ActionView::Stop],
        ),
        Some(e) => {
            let stepped = event_step(st.agg, e);
            let result = stepped.1;
            let agg = AggView { pending: stepped.0.pending + result.refresh, ..stepped.0 };
            if result.state_changed {
                let decided = change_step(
                    st.throttle,
                    throttle_settings(cfg),
                    result.change is PaneOutput,
                    now,
                );
                (
                    MonitorView { agg, throttle: decided.0, ..st },
                    event_actions(result, decided.1 == EmitDecision::EmitNow),
                )
            } else {
                (MonitorView { agg, ..st }, event_actions(result, false))
            }
        },
    }
}

/// Whether some pane is in copy mode.
pub open spec fn any_in_copy_mode(agg: AggView) -> bool {
    exists|i: int| 0 <= i < agg.panes.len() && (#[trigger] agg.panes[i]).in_mode
}

/// The monitor after the sync timer ran out at `now`, and what to do: the
/// commands of the sync go out in one batch, the panes that it captures
/// are queued, and the next sync is due as the plan says.
pub open spec fn on_sync_step(
    st: MonitorView,
    cfg: MonitorConfig,
    now: u64,
    copy_panes: Seq<CopyModePane>,
) -> (MonitorView, Seq<ActionView>) {
    let plan = sync_plan(any_in_copy_mode(st.agg), cfg.sync_interval, copy_panes);
    (
        MonitorView {
            agg: AggView { pending: st.agg.pending + plan.captures, ..st.agg },
            next_sync_at: capped(now, plan.next_in),
            ..st
        },
        seq![ActionView::SendBatch { commands: plan.commands }],
    )
}

/// What to do on a command of a client, or on the end of the commands where
/// `command` is `None`.
pub open spec fn command_actions(command: Option<MonitorCommand>) -> Seq<ActionView> {
    match command {
        Some(MonitorCommand::ResizeWindow { cols, rows }) => seq![
            ActionView::SendCommand { command: resize_command(cols, rows) },
        ],
        Some(MonitorCommand::RunCommand { command }) => seq![
            ActionView::SendCommand { command: unescaped(command@) },
        ],
        Some(MonitorCommand::Shutdown) => seq![ActionView::GracefulClose, ActionView::Stop],
        None => seq![ActionView::Stop],
    }
}

impl MonitorConfig {
    /// The settings of throttling.
    pub fn throttle_config(&self) -> (c: ThrottleConfig)
        ensures
            c == throttle_settings(*self),
    {
        ThrottleConfig {
            interval: self.throttle_interval,
            threshold: self.throttle_threshold,
            rate_window: self.rate_window,
        }
    }
}

impl MonitorState {
    /// Whether the state is well formed: the model is.
    pub open spec fn wf(&self) -> bool {
        self.aggregator.wf()
    }

    /// The state of a monitor that starts at `now`: an empty model of the
    /// session, and the first sync due one second after the sync interval.
    pub fn new(cfg: &MonitorConfig, now: u64) -> (m: MonitorState)
        ensures
            m.wf(),
            m@ == (MonitorView {
                agg: crate::state::empty_model(cfg.session@),
                throttle: fresh(),
                next_sync_at: capped(capped(now, cfg.sync_interval), 1000),
            }),
    {
        MonitorState {
            aggregator: StateAggregator::with_session_name(cfg.session.as_str()),
            throttle: Throttle::new(),
            next_sync_at: capped_add(capped_add(now, cfg.sync_interval), 1000),
        }
    }

    /// Takes an event of control mode at `now`, or the end of the stream.
    pub fn on_event(
        &mut self,
        cfg: &MonitorConfig,
        event: Option<ControlModeEvent>,
        now: u64,
    ) -> (actions: Vec<LoopAction>)
        requires
            old(self).wf(),
        ensures
            final(self).wf(),
            (final(self)@, action_views(actions@)) == on_event_step(
                old(self)@,
                *cfg,
                match event {
                    Some(e) => Some(e@),
                    None => None,
                },
                now,
            ),
    {
        let mut actions: Vec<LoopAction> = Vec::new();
        let event = match event {
            None => {
                actions.push(
                    LoopAction::EmitError {
                        message: text::string_of_str("Control mode connection closed"),
                    },
                );
                actions.push(LoopAction::Stop);
                assert(action_views(actions@) =~= seq![
                    ActionView::EmitError { message: "Control mode connection closed"@ },
                    ActionView::Stop,
                ]);
                return actions;
            },
            Some(e) => e,
        };
        if let ControlModeEvent::Exit { reason } = event {
            let mut message = text::string_of_str("Control mode exited: ");
            match &reason {
                Some(r) => message.append(r.as_str()),
                None => message.append("disconnected"),
            }
            actions.push(LoopAction::EmitError { message });
            actions.push(LoopAction::Stop);
            assert(action_views(actions@) =~= seq![
                ActionView::EmitError { message: exit_message(crate::parser::opt_str_view(reason)) },
                ActionView::Stop,
            ]);
            return actions;
        }
        let ghost e = event@;
        let result = self.aggregator.process_event(event);
        assert(action_views(actions@) =~= Seq::empty());
        if result.panes_needing_refresh.len() > 0 {
            self.aggregator.queue_captures(result.panes_needing_refresh.as_slice());
            let commands = capture_commands(result.panes_needing_refresh.as_slice());
            actions.push(LoopAction::SendBatch { commands });
            assert(action_views(actions@) =~= seq![
                ActionView::SendBatch { commands: capture_command_list(result@.refresh) },
            ]);
        } else {
            assert(self.aggregator@.pending + result@.refresh =~= self.aggregator@.pending);
        }
        let ghost first = action_views(actions@);
        let mut emit = false;
        if result.state_changed {
            let is_output = match &result.change_type {
                ChangeType::PaneOutput { pane_id } => true,
                _ => false,
            };
            let settings = cfg.throttle_config();
            match self.throttle.on_state_change(&settings, is_output, now) {
                EmitDecision::EmitNow => {
                    emit = true;
                },
                EmitDecision::Defer => {},
            }
        }
        if emit {
            actions.push(LoopAction::EmitState);
            assert(action_views(actions@) =~= first + seq![ActionView::EmitState]);
        } else {
            assert(first + Seq::<ActionView>::empty() =~= first);
        }
        let ghost second = action_views(actions@);
        if let ChangeType::FlowPause { pane_id } = &result.change_type {
            let command = continue_pane_command(pane_id.as_str());
            actions.push(LoopAction::SendCommand { command });
            assert(action_views(actions@) =~= second + seq![
                ActionView::SendCommand { command: continue_command(pane_id@) },
            ]);
        } else {
            assert(second + Seq::<ActionView>::empty() =~= second);
        }
        actions
    }

    /// For how long the throttle timer is to run from `now`, if at all.
    pub fn throttle_delay(&self, cfg: &MonitorConfig, now: u64) -> (r: Option<u64>)
        ensures
            r == timer_delay(self.throttle@, throttle_settings(*cfg), now),
    {
        let settings = cfg.throttle_config();
        self.throttle.timer_delay(&settings, now)
    }

    /// Notes that the throttle timer ran out at `now`: the pending update is
    /// to be sent.
    pub fn on_throttle_timer(&mut self, now: u64) -> (actions: Vec<LoopAction>)
        ensures
            final(self)@ == (MonitorView { throttle: emitted(old(self)@.throttle, now), ..old(self)@ }),
            old(self).wf() ==> final(self).wf(),
            action_views(actions@) == seq![ActionView::EmitState],
    {
        self.throttle.on_timer(now);
        let actions: Vec<LoopAction> = vec![LoopAction::EmitState];
        assert(action_views(actions@) =~= seq![ActionView::EmitState]);
        actions
    }

    /// The panes in copy mode as the periodic sync needs them. `listing` is
    /// what tmux answers when it lists the panes in the [`SCROLL_FORMAT`].
    pub fn copy_mode_panes(&self, listing: &str) -> (panes: Vec<CopyModePane>)
        ensures
            copy_pane_views(panes@) == copy_mode_panes(self@.agg.panes, text::lines(listing@), 0),
    {
        let chars = text::chars_of(listing);
        let lines = text::split_lines(chars.as_slice());
        let ghost all = self@.agg.panes;
        let ghost told = text::lines(listing@);
        let mut panes: Vec<CopyModePane> = Vec::new();
        assert(copy_pane_views(panes@) =~= Seq::empty());
        let mut k: usize = 0;
        while k < self.aggregator.panes.len()
            invariant
                k <= self.aggregator.panes@.len(),
                all == self@.agg.panes,
                all.len() == self.aggregator.panes@.len(),
                told == text::views(lines@),
                copy_mode_panes(all, told, 0) == copy_pane_views(panes@) + copy_mode_panes(
                    all,
                    told,
                    k as int,
                ),
            decreases self.aggregator.panes@.len() - k,
        {
            let pane = &self.aggregator.panes[k];
            assert(all[k as int] == pane@);
            if pane.in_mode {
                let ghost before = copy_pane_views(panes@);
                let id = text::chars_of(pane.id.as_str());
                let scroll_position = scroll_position_of(&lines, id.as_slice());
                panes.push(
                    CopyModePane { id: pane.id.clone(), scroll_position, height: pane.height },
                );
                assert(copy_pane_views(panes@) =~= before.push(
                    (pane.id@, scroll_position, pane.height),
                ));
            }
            assert(copy_mode_panes(all, told, 0) =~= copy_pane_views(panes@) + copy_mode_panes(
                all,
                told,
                k + 1,
            ));
            k += 1;
        }
        assert(copy_mode_panes(all, told, 0) =~= copy_pane_views(panes@));
        panes
    }

    /// Notes that the sync timer ran out at `now`. `copy_panes` are the
    /// panes in copy mode with their scroll positions.
    pub fn on_sync_timer(
        &mut self,
        cfg: &MonitorConfig,
        now: u64,
        copy_panes: &[CopyModePane],
    ) -> (actions: Vec<LoopAction>)
        requires
            old(self).wf(),
        ensures
            final(self).wf(),
            (final(self)@, action_views(actions@)) == on_sync_step(
                old(self)@,
                *cfg,
                now,
                copy_panes@,
            ),
    {
        let in_copy_mode = self.aggregator.has_pane_in_copy_mode();
        let plan = sync_commands(in_copy_mode, cfg.sync_interval, copy_panes);
        self.aggregator.queue_captures(plan.captures.as_slice());
        self.next_sync_at = capped_add(now, plan.next_in);
        let actions: Vec<LoopAction> = vec![LoopAction::SendBatch { commands: plan.commands }];
        assert(action_views(actions@) =~= seq![
            ActionView::SendBatch { commands: text::str_views(plan.commands@) },
        ]);
        actions
    }

    /// Takes a command of a client, or the end of the commands.
    pub fn on_command(&self, command: Option<MonitorCommand>) -> (actions: Vec<LoopAction>)
        ensures
            action_views(actions@) == command_actions(command),
    {
        let actions: Vec<LoopAction> = match command {
            Some(MonitorCommand::ResizeWindow { cols, rows }) => vec![
                LoopAction::SendCommand { command: resize_window_command(cols, rows) },
            ],
            Some(MonitorCommand::RunCommand { command }) => vec![
                LoopAction::SendCommand { command: unescape_command(command.as_str()) },
            ],
            Some(MonitorCommand::Shutdown) => vec![LoopAction::GracefulClose, LoopAction::Stop],
            None => vec![LoopAction::Stop],
        };
        assert(action_views(actions@) =~= command_actions(command));
        actions
    }

    /// The update to send to clients now, if there is anything to send and
    /// the sequence number can still grow.
    pub fn state_update(&mut self) -> (r: Option<StateUpdate>)
        requires
            old(self).wf(),
        ensures
            final(self).wf(),
            final(self)@ == (MonitorView { agg: final(self)@.agg, ..old(self)@ }),
            old(self)@.agg.seq < u64::MAX ==> (final(self)@.agg, opt_update_view(r)) == update_step(
                old(self)@.agg,
            ),
            old(self)@.agg.seq == u64::MAX ==> r.is_none() && final(self)@ == old(self)@,
    {
        if self.aggregator.delta_seq < u64::MAX {
            self.aggregator.to_state_update()
        } else {
            None
        }
    }
}

} // verus!
