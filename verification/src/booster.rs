//! The state machine of the control loop: one decision per cycle.

use vstd::prelude::*;
use vstd::string::*;
use crate::actuator::{
    boost_actions, run_boost_cycle, Capabilities, DisabledPolicy, TuningAction, CYCLE_SKIPPED,
    CYCLE_STARTED,
};
use crate::config::{Config, ConfigView, IconsView};
use crate::decimal::{append_decimal, decimal_digits};
use crate::load::{append_load, load_delta, load_distance, load_text, normalized_load};
use crate::notifier::{
    gate_output, notification_view, Notification, NotificationGate, NotificationView, TITLE,
};
use crate::snapshot::SystemSnapshot;

verus! {

/// How a cycle sees the machine.
#[derive(Debug, Clone, Copy, PartialEq, Eq, Structural)]
pub enum BoosterState {
    /// The load is below the idle threshold: the booster runs.
    Idle,
    /// The load is at or above the idle threshold: the booster is held back.
    Busy,
    /// The user paused the booster.
    Paused,
}

/// What lives across cycles.
#[derive(Debug, Clone)]
pub struct RunState {
    /// Set while the user holds the booster back.
    pub paused: bool,
    /// Cleared to make the loop stop at the top of its next cycle.
    pub running: bool,
    /// Number of idle cycles in a row, the present one included.
    pub idle_cycles: u32,
    /// Load of the previous cycle, in millionths.
    pub last_load: u64,
    /// Holds the last message that was announced.
    pub gate: NotificationGate,
}

/// Mathematical value of a [`RunState`].
pub struct RunStateView {
    pub paused: bool,
    pub running: bool,
    pub idle_cycles: nat,
    pub last_load: nat,
    pub last_message: Option<Seq<char>>,
}

impl View for RunState {
    type V = RunStateView;

    open spec fn view(&self) -> RunStateView {
        RunStateView {
            paused: self.paused,
            running: self.running,
            idle_cycles: self.idle_cycles as nat,
            last_load: self.last_load as nat,
            last_message: self.gate@,
        }
    }
}

/// What one cycle decided.
#[derive(Debug, Clone)]
pub struct CycleOutcome {
    pub state: BoosterState,
    /// Whether the tuning actions run enabled in this cycle.
    pub boost: bool,
    /// Seconds to sleep before the next cycle.
    pub interval: u64,
    /// The line that describes the state, for the log and the console.
    pub message: String,
    /// The notification to display, if one is due and is no repeat.
    pub notification: Option<Notification>,
}

/// Mathematical value of a [`CycleOutcome`].
pub struct CycleView {
    pub state: BoosterState,
    pub boost: bool,
    pub interval: nat,
    pub message: Seq<char>,
    pub notification: Option<NotificationView>,
}

impl View for CycleOutcome {
    type V = CycleView;

    open spec fn view(&self) -> CycleView {
        CycleView {
            state: self.state,
            boost: self.boost,
            interval: self.interval as nat,
            message: self.message@,
            notification: notification_view(self.notification),
        }
    }
}

/// The view of an optional outcome.
pub open spec fn outcome_view(outcome: Option<CycleOutcome>) -> Option<CycleView> {
    match outcome {
        Some(o) => Some(o@),
        None => None,
    }
}

/// Message of a paused cycle.
pub const PAUSED_MESSAGE: &'static str = "Booster paused by user";

/// Message of an idle cycle.
pub const IDLE_MESSAGE: &'static str = "System idle detected, running booster";

/// Message of a busy cycle, up to the load.
pub const BUSY_MESSAGE_HEAD: &'static str = "System busy (load ";

/// Message of a busy cycle, after the load.
pub const BUSY_MESSAGE_TAIL: &'static str = "), skipping booster";

/// The state of a cycle.  It depends on the pause flag, the load and the
/// idle threshold alone: no earlier state enters.
pub open spec fn classify(paused: bool, load: nat, idle_load_threshold: nat) -> BoosterState {
    if paused {
        BoosterState::Paused
    } else if load < idle_load_threshold {
        BoosterState::Idle
    } else {
        BoosterState::Busy
    }
}

/// The count of idle cycles in a row after a cycle in `state`: one more after
/// an idle cycle (the count stops at the largest `u32`), none otherwise.
pub open spec fn idle_cycles_after(state: BoosterState, idle_cycles: nat) -> nat {
    match state {
        BoosterState::Idle => if idle_cycles < u32::MAX {
            idle_cycles + 1
        } else {
            idle_cycles
        },
        _ => 0,
    }
}

/// Whether a cycle asks for a notification.  A paused cycle always does
/// (repeats are held back by the notification gate alone); an idle cycle
/// does once enough idle cycles came in a row, or when the load moved by
/// more than the change threshold; a busy cycle does when the load moved by
/// more than the change threshold.
pub open spec fn notification_due(
    state: BoosterState,
    idle_cycles: nat,
    last_load: nat,
    load: nat,
    cfg: ConfigView,
) -> bool {
    match state {
        BoosterState::Paused => true,
        BoosterState::Idle => idle_cycles >= cfg.min_idle_cycles_for_notify || load_distance(
            last_load,
            load,
        ) > cfg.load_change_threshold,
        BoosterState::Busy => load_distance(last_load, load) > cfg.load_change_threshold,
    }
}

/// The line that describes a cycle.
pub open spec fn state_message(state: BoosterState, load: nat) -> Seq<char> {
    match state {
        BoosterState::Paused => PAUSED_MESSAGE@,
        BoosterState::Idle => IDLE_MESSAGE@,
        BoosterState::Busy => BUSY_MESSAGE_HEAD@ + load_text(load) + BUSY_MESSAGE_TAIL@,
    }
}

/// The icon asset of a state.
pub open spec fn state_icon(state: BoosterState, icons: IconsView) -> Seq<char> {
    match state {
        BoosterState::Paused => icons.paused,
        BoosterState::Idle => icons.active,
        BoosterState::Busy => icons.busy,
    }
}

/// Seconds to sleep after a cycle: the short interval after an idle cycle,
/// the long one after a busy or a paused cycle.
pub open spec fn next_interval(state: BoosterState, cfg: ConfigView) -> nat {
    match state {
        BoosterState::Idle => cfg.min_interval,
        _ => cfg.max_interval,
    }
}

/// What a cycle decides, for a loop that is running.
pub open spec fn cycle_outcome(rs: RunStateView, cfg: ConfigView, load: nat) -> CycleView {
    let state = classify(rs.paused, load, cfg.idle_load_threshold);
    let message = state_message(state, load);
    CycleView {
        state,
        boost: state == BoosterState::Idle,
        interval: next_interval(state, cfg),
        message,
        notification: if notification_due(
            state,
            idle_cycles_after(state, rs.idle_cycles),
            rs.last_load,
            load,
            cfg,
        ) {
            gate_output(rs.last_message, TITLE@, message, state_icon(state, cfg.icons))
        } else {
            None
        },
    }
}

/// What a cycle leaves behind, for a loop that is running.
pub open spec fn cycle_state(rs: RunStateView, cfg: ConfigView, load: nat) -> RunStateView {
    let state = classify(rs.paused, load, cfg.idle_load_threshold);
    let idle_cycles = idle_cycles_after(state, rs.idle_cycles);
    RunStateView {
        paused: rs.paused,
        running: rs.running,
        idle_cycles,
        last_load: load,
        last_message: if notification_due(state, idle_cycles, rs.last_load, load, cfg) {
            Some(state_message(state, load))
        } else {
            rs.last_message
        },
    }
}

/// The short name of a state, in capitals.
pub open spec fn state_label(state: BoosterState) -> Seq<char> {
    match state {
        BoosterState::Idle => "IDLE"@,
        BoosterState::Busy => "BUSY"@,
        BoosterState::Paused => "PAUSED"@,
    }
}

impl BoosterState {
    /// The short name of the state, in capitals.
    pub fn label(&self) -> (name: &'static str)
        ensures
            name@ == state_label(*self),
    {
        match self {
            BoosterState::Idle => "IDLE",
            BoosterState::Busy => "BUSY",
            BoosterState::Paused => "PAUSED",
        }
    }
}

/// The line that tells how long the loop sleeps.
pub open spec fn interval_text(interval: nat) -> Seq<char> {
    "Next check in "@ + decimal_digits(interval) + "s"@
}

/// Writes the line that tells how long the loop sleeps.
pub fn interval_message(interval: u64) -> (line: String)
    ensures
        line@ == interval_text(interval as nat),
{
    let mut line = String::from_str("Next check in ");
    append_decimal(&mut line, interval);
    line.append("s");
    line
}

/// The line that opens the tuning of a cycle in the log: an idle cycle
/// tells that the booster runs, a paused cycle that it is skipped, and a
/// busy cycle says nothing.
pub open spec fn opening_line(state: BoosterState) -> Option<Seq<char>> {
    match state {
        BoosterState::Idle => Some(CYCLE_STARTED@),
        BoosterState::Paused => Some(CYCLE_SKIPPED@),
        BoosterState::Busy => None,
    }
}

/// The view of an optional line.
pub open spec fn line_view(line: Option<&'static str>) -> Option<Seq<char>> {
    match line {
        Some(l) => Some(l@),
        None => None,
    }
}

/// Picks the line that opens the tuning of a cycle in the log.
pub fn opening(state: BoosterState) -> (line: Option<&'static str>)
    ensures
        line_view(line) == opening_line(state),
{
    match state {
        BoosterState::Idle => Some(CYCLE_STARTED),
        BoosterState::Paused => Some(CYCLE_SKIPPED),
        BoosterState::Busy => None,
    }
}

/// Classifies a cycle.
pub fn classify_cycle(paused: bool, load: u64, idle_load_threshold: u64) -> (state: BoosterState)
    ensures
        state == classify(paused, load as nat, idle_load_threshold as nat),
{
    if paused {
        BoosterState::Paused
    } else if load < idle_load_threshold {
        BoosterState::Idle
    } else {
        BoosterState::Busy
    }
}

/// Writes the line that describes a cycle.
pub fn describe_state(state: BoosterState, load: u64) -> (message: String)
    ensures
        message@ == state_message(state, load as nat),
{
    match state {
        BoosterState::Paused => String::from_str(PAUSED_MESSAGE),
        BoosterState::Idle => String::from_str(IDLE_MESSAGE),
        BoosterState::Busy => {
            let mut message = String::from_str(BUSY_MESSAGE_HEAD);
            append_load(&mut message, load);
            message.append(BUSY_MESSAGE_TAIL);
            message
        },
    }
}

impl RunState {
    /// The state of a loop that starts: running, not paused, nothing seen and
    /// nothing announced yet.
    pub fn new() -> (rs: RunState)
        ensures
            rs@ == (RunStateView {
                paused: false,
                running: true,
                idle_cycles: 0,
                last_load: 0,
                last_message: None,
            }),
    {
        RunState {
            paused: false,
            running: true,
            idle_cycles: 0,
            last_load: 0,
            gate: NotificationGate::new(),
        }
    }

    /// Decides one cycle on a fresh snapshot.
    ///
    /// A loop that was told to stop decides nothing and keeps its state.
    /// Otherwise the cycle is classified, the idle count and the last load
    /// are brought up to date, and the notification of the state passes the
    /// notification gate if it is due.
    pub fn run_cycle(&mut self, config: &Config, snapshot: &SystemSnapshot) -> (outcome: Option<
        CycleOutcome,
    >)
        ensures
            !old(self).running ==> outcome is None && *final(self) == *old(self),
            old(self).running ==> outcome_view(outcome) == Some(
                cycle_outcome(old(self)@, config@, snapshot@.normalized_load),
            ),
            old(self).running ==> final(self)@ == cycle_state(
                old(self)@,
                config@,
                snapshot@.normalized_load,
            ),
    {
        if !self.running {
            return None;
        }
        let load = snapshot.normalized_load();
        let state = classify_cycle(self.paused, load, config.idle_load_threshold);
        let idle_cycles: u32 = match state {
            BoosterState::Idle => if self.idle_cycles < u32::MAX {
                self.idle_cycles + 1
            } else {
                self.idle_cycles
            },
            _ => 0,
        };
        let moved = load_delta(self.last_load, load) > config.load_change_threshold;
        let due = match state {
            BoosterState::Paused => true,
            BoosterState::Idle => idle_cycles >= config.min_idle_cycles_for_notify || moved,
            BoosterState::Busy => moved,
        };
        let message = describe_state(state, load);
        let notification = if due {
            let icon = match state {
                BoosterState::Paused => config.icons.paused.as_str(),
                BoosterState::Idle => config.icons.active.as_str(),
                BoosterState::Busy => config.icons.busy.as_str(),
            };
            self.gate.notify(TITLE, message.as_str(), icon)
        } else {
            None
        };
        let interval = match state {
            BoosterState::Idle => config.min_interval,
            _ => config.max_interval,
        };
        self.idle_cycles = idle_cycles;
        self.last_load = load;
        Some(
            CycleOutcome {
                state,
                boost: state == BoosterState::Idle,
                interval,
                message,
                notification,
            },
        )
    }
}

/// What a single boost on request did and found.
#[derive(Debug, Clone)]
pub struct BoostReport {
    /// How a cycle of the loop would have seen the machine.
    pub state: BoosterState,
    /// The actions of the boost.
    pub plan: Vec<TuningAction>,
}

/// Plans a single boost on request.  The boost runs enabled whatever the
/// load is; the report tells how a cycle of a loop that is not paused would
/// have seen the machine, so that a boost under high load can be told.
pub fn boost_once(config: &Config, snapshot: &SystemSnapshot, caps: &Capabilities) -> (report:
    BoostReport)
    ensures
        report.state == classify(
            false,
            snapshot@.normalized_load,
            config@.idle_load_threshold,
        ),
        report.plan@ == boost_actions(*caps, snapshot@.swap_used_kib),
{
    let state = classify_cycle(false, snapshot.normalized_load(), config.idle_load_threshold);
    let plan = run_boost_cycle(None, snapshot, caps, DisabledPolicy::Skip);
    BoostReport { state, plan }
}

/// Law: the state of a cycle is determined by the pause flag, the load and
/// the idle threshold.  Two evaluations that agree on these three agree on
/// the state, whatever else the run state and the settings hold.
pub proof fn lemma_classification_is_deterministic(
    rs1: RunStateView,
    cfg1: ConfigView,
    rs2: RunStateView,
    cfg2: ConfigView,
    load: nat,
)
    requires
        rs1.paused == rs2.paused,
        cfg1.idle_load_threshold == cfg2.idle_load_threshold,
    ensures
        cycle_outcome(rs1, cfg1, load).state == cycle_outcome(rs2, cfg2, load).state,
        cycle_outcome(rs1, cfg1, load).state == classify(
            rs1.paused,
            load,
            cfg1.idle_load_threshold,
        ),
{
}

/// Law: rounding does not move the threshold.  The load per core is rounded
/// down to a whole number of millionths, and still a cycle is idle exactly
/// if the raw load lies below the threshold times the number of cores.
pub proof fn lemma_rounding_keeps_the_state(paused: bool, raw: nat, cores: nat, threshold: nat)
    requires
        cores >= 1,
    ensures
        classify(paused, normalized_load(raw, cores), threshold) == (if paused {
            BoosterState::Paused
        } else if raw < threshold * cores {
            BoosterState::Idle
        } else {
            BoosterState::Busy
        }),
{
    let q = raw / cores;
    vstd::arithmetic::div_mod::lemma_fundamental_div_mod(raw as int, cores as int);
    vstd::arithmetic::div_mod::lemma_mod_bound(raw as int, cores as int);
    let r = (raw as int) % (cores as int);
    assert(raw == cores * q + r);
    if q < threshold {
        assert(cores * q + r < threshold * cores) by (nonlinear_arith)
            requires
                q + 1 <= threshold,
                0 <= r < cores,
        ;
    } else {
        assert(cores * q + r >= threshold * cores) by (nonlinear_arith)
            requires
                q >= threshold,
                0 <= r,
                cores >= 1,
        ;
    }
}

/// Law: hysteresis.  An idle or busy cycle that leaves the count of idle
/// cycles below the count asked for, on a load that moved by no more than
/// the change threshold, announces nothing and leaves the notification gate
/// untouched.
pub proof fn lemma_hysteresis(rs: RunStateView, cfg: ConfigView, load: nat)
    requires
        cycle_outcome(rs, cfg, load).state != BoosterState::Paused,
        cycle_state(rs, cfg, load).idle_cycles < cfg.min_idle_cycles_for_notify,
        load_distance(rs.last_load, load) <= cfg.load_change_threshold,
    ensures
        cycle_outcome(rs, cfg, load).notification is None,
        cycle_state(rs, cfg, load).last_message == rs.last_message,
{
}

/// Law: what each state entails.  An idle cycle boosts, sleeps the short
/// interval and counts one idle cycle more; a busy cycle holds the boost back and sleeps the long interval;
/// a pause makes the cycle paused whatever the load, holds the boost back,
/// sleeps the long interval and clears the count of idle cycles.
pub proof fn lemma_state_entails(rs: RunStateView, cfg: ConfigView, load: nat)
    ensures
        !rs.paused && load < cfg.idle_load_threshold ==> {
            &&& cycle_outcome(rs, cfg, load).state == BoosterState::Idle
            &&& cycle_outcome(rs, cfg, load).boost
            &&& cycle_outcome(rs, cfg, load).interval == cfg.min_interval
            &&& rs.idle_cycles < u32::MAX ==> cycle_state(rs, cfg, load).idle_cycles
                == rs.idle_cycles + 1
        },
        !rs.paused && load >= cfg.idle_load_threshold ==> {
            &&& cycle_outcome(rs, cfg, load).state == BoosterState::Busy
            &&& !cycle_outcome(rs, cfg, load).boost
            &&& cycle_outcome(rs, cfg, load).interval == cfg.max_interval
            &&& cycle_state(rs, cfg, load).idle_cycles == 0
        },
        rs.paused ==> {
            &&& cycle_outcome(rs, cfg, load).state == BoosterState::Paused
            &&& !cycle_outcome(rs, cfg, load).boost
            &&& cycle_outcome(rs, cfg, load).interval == cfg.max_interval
            &&& cycle_state(rs, cfg, load).idle_cycles == 0
        },
        cycle_state(rs, cfg, load).last_load == load,
        cycle_state(rs, cfg, load).paused == rs.paused,
        cycle_state(rs, cfg, load).running == rs.running,
{
}

/// Law: no message is announced twice in a row.  A cycle whose message is
/// the one that the notification gate holds lets no notification out; and
/// of two cycles in a row with the same message, the second lets none out
/// if the first was due.
pub proof fn lemma_no_repeat_across_cycles(
    rs: RunStateView,
    cfg: ConfigView,
    load1: nat,
    load2: nat,
)
    ensures
        rs.last_message == Some(cycle_outcome(rs, cfg, load1).message) ==> cycle_outcome(
            rs,
            cfg,
            load1,
        ).notification is None,
        cycle_outcome(rs, cfg, load1).notification is Some && cycle_outcome(
            cycle_state(rs, cfg, load1),
            cfg,
            load2,
        ).message == cycle_outcome(rs, cfg, load1).message ==> cycle_outcome(
            cycle_state(rs, cfg, load1),
            cfg,
            load2,
        ).notification is None,
{
}

} // verus!
