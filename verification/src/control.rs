//! Control from outside the loop: the pause signal, the stop signals, and
//! the command that sends the pause signal to a running daemon.

use vstd::prelude::*;
use vstd::string::*;
use crate::actuator::{disabled_actions, run_boost_cycle, Capabilities, DisabledPolicy, TuningAction};
use crate::booster::{cycle_outcome, BoosterState, RunState, RunStateView};
use crate::config::ConfigView;
use crate::icons;
use crate::notifier::{gate_output, notification_view, Notification, NotificationView, TITLE};
use crate::snapshot::SystemSnapshot;

verus! {

/// What a signal asks of the daemon.
#[derive(Debug, Clone, Copy, PartialEq, Eq, Structural)]
pub enum ControlEvent {
    /// Flip the pause flag.
    Toggle,
    /// Put the tuning back and stop.
    Shutdown,
}

/// What the handling of a signal asks of its watcher.
#[derive(Debug, Clone)]
pub struct SignalOutcome {
    /// The line for the log.
    pub message: String,
    /// Tuning actions to run at once.
    pub revert: Vec<TuningAction>,
    /// The notification to display, if any.
    pub notification: Option<Notification>,
    /// Whether the watcher goes on waiting for this kind of signal.
    pub keep_watching: bool,
}

/// Mathematical value of a [`SignalOutcome`].
pub struct SignalView {
    pub message: Seq<char>,
    pub revert: Seq<TuningAction>,
    pub notification: Option<NotificationView>,
    pub keep_watching: bool,
}

impl View for SignalOutcome {
    type V = SignalView;

    open spec fn view(&self) -> SignalView {
        SignalView {
            message: self.message@,
            revert: self.revert@,
            notification: notification_view(self.notification),
            keep_watching: self.keep_watching,
        }
    }
}

/// Logged when a signal pauses the booster.
pub const PAUSED_BY_SIGNAL: &'static str = "Pause signal received: booster paused";

/// Logged when a signal lets the booster go on.
pub const RESUMED_BY_SIGNAL: &'static str = "Pause signal received: booster resumed";

/// Logged and announced when a signal stops the daemon.
pub const STOP_MESSAGE: &'static str = "Booster stopped";

/// Logged when a stop signal finds the daemon stopped.
pub const ALREADY_STOPPED: &'static str = "Stop signal received: booster already stopped";

/// The run state after a signal.  The pause signal flips the pause flag
/// each time it comes; a stop signal clears the running flag, and the stop
/// message passes the notification gate.
pub open spec fn signal_state(rs: RunStateView, event: ControlEvent) -> RunStateView {
    match event {
        ControlEvent::Toggle => RunStateView { paused: !rs.paused, ..rs },
        ControlEvent::Shutdown => if rs.running {
            RunStateView { running: false, last_message: Some(STOP_MESSAGE@), ..rs }
        } else {
            rs
        },
    }
}

/// The notification that a signal lets out: none for the pause signal, and
/// for the first stop signal the stop notification, unless it repeats the
/// message that the notification gate holds.
pub open spec fn signal_notification(rs: RunStateView, event: ControlEvent) -> Option<
    NotificationView,
> {
    if event == ControlEvent::Shutdown && rs.running {
        gate_output(rs.last_message, TITLE@, STOP_MESSAGE@, icons::PAUSED@)
    } else {
        None
    }
}

/// What a signal asks of its watcher.  The pause signal asks for a line in
/// the log and is watched for again.  The first stop signal asks for the
/// tuning actions of a disabled cycle, for the stop notification, and is
/// not watched for again.
pub open spec fn signal_outcome(
    rs: RunStateView,
    event: ControlEvent,
    caps: Capabilities,
    policy: DisabledPolicy,
) -> SignalView {
    SignalView {
        message: match event {
            ControlEvent::Toggle => if rs.paused {
                RESUMED_BY_SIGNAL@
            } else {
                PAUSED_BY_SIGNAL@
            },
            ControlEvent::Shutdown => if rs.running {
                STOP_MESSAGE@
            } else {
                ALREADY_STOPPED@
            },
        },
        revert: if event == ControlEvent::Shutdown && rs.running {
            disabled_actions(caps, policy)
        } else {
            Seq::empty()
        },
        notification: signal_notification(rs, event),
        keep_watching: event == ControlEvent::Toggle,
    }
}

impl RunState {
    /// Handles one signal.
    pub fn handle_signal(
        &mut self,
        event: ControlEvent,
        caps: &Capabilities,
        policy: DisabledPolicy,
    ) -> (outcome: SignalOutcome)
        ensures
            final(self)@ == signal_state(old(self)@, event),
            outcome@ == signal_outcome(old(self)@, event, *caps, policy),
    {
        match event {
            ControlEvent::Toggle => {
                self.paused = !self.paused;
                let message = if self.paused {
                    String::from_str(PAUSED_BY_SIGNAL)
                } else {
                    String::from_str(RESUMED_BY_SIGNAL)
                };
                SignalOutcome {
                    message,
                    revert: Vec::new(),
                    notification: None,
                    keep_watching: true,
                }
            },
            ControlEvent::Shutdown => {
                if self.running {
                    self.running = false;
                    let revert = run_boost_cycle(
                        Some(false),
                        &SystemSnapshot::fallback(),
                        caps,
                        policy,
                    );
                    let notification = self.gate.notify(TITLE, STOP_MESSAGE, icons::PAUSED);
                    SignalOutcome {
                        message: String::from_str(STOP_MESSAGE),
                        revert,
                        notification,
                        keep_watching: false,
                    }
                } else {
                    SignalOutcome {
                        message: String::from_str(ALREADY_STOPPED),
                        revert: Vec::new(),
                        notification: None,
                        keep_watching: false,
                    }
                }
            },
        }
    }
}

/// Why the pause command did not reach a daemon.
#[derive(Debug, Clone, Copy, PartialEq, Eq, Structural)]
pub enum ControlError {
    /// The sender is not the superuser.
    NotPrivileged,
    /// The process id names no process that a signal can reach.
    NoSuchProcess,
    /// The system refused to deliver the signal.
    DeliveryFailed,
}

/// Exit status of a pause command that reached the daemon.
pub const EXIT_OK: i32 = 0;

/// Exit status of a pause command that failed.
pub const EXIT_FAILURE: i32 = 1;

/// Whether a pause command may send its signal, and to which process: the
/// privilege is looked at first, then the process id, which has to be
/// positive and has to fit the system's type.
pub open spec fn pause_target(pid: u32, privileged: bool) -> Result<i32, ControlError> {
    if !privileged {
        Err(ControlError::NotPrivileged)
    } else if pid == 0 || pid > i32::MAX {
        Err(ControlError::NoSuchProcess)
    } else {
        Ok(pid as i32)
    }
}

/// Decides whether a pause command may send its signal to process `pid`.
pub fn authorize_pause(pid: u32, privileged: bool) -> (target: Result<i32, ControlError>)
    ensures
        target == pause_target(pid, privileged),
{
    if !privileged {
        Err(ControlError::NotPrivileged)
    } else if pid == 0 || pid > 0x7fff_ffff {
        Err(ControlError::NoSuchProcess)
    } else {
        Ok(pid as i32)
    }
}

/// Asks the system whether the effective user of this process is the
/// superuser.
///
/// Trusted.  The body calls `nix::unistd::Uid::effective` and
/// `Uid::is_root`.  Nothing is claimed of the answer, which depends on who
/// started the process.
#[verifier::external_body]
fn effective_user_is_root() -> (root: bool) {
    nix::unistd::Uid::effective().is_root()
}

/// Decides whether this process may send the pause signal to process `pid`.
/// Only the superuser may; whoever else asks gets `NotPrivileged`, whatever
/// the process id.
pub fn request_pause(pid: u32) -> (target: Result<i32, ControlError>)
    ensures
        target == pause_target(pid, true) || target == pause_target(pid, false),
        target is Ok ==> target == pause_target(pid, true),
{
    let privileged = effective_user_is_root();
    authorize_pause(pid, privileged)
}

/// The exit status of a pause command: zero where the signal was delivered,
/// not zero otherwise.
pub open spec fn exit_status(delivery: Result<(), ControlError>) -> i32 {
    match delivery {
        Ok(_) => EXIT_OK,
        Err(_) => EXIT_FAILURE,
    }
}

/// Computes the exit status of a pause command.
pub fn pause_exit_code(delivery: Result<(), ControlError>) -> (code: i32)
    ensures
        code == exit_status(delivery),
        (code == 0) == (delivery is Ok),
{
    match delivery {
        Ok(_) => EXIT_OK,
        Err(_) => EXIT_FAILURE,
    }
}

/// Text of each cause, for the console.
pub open spec fn error_text(error: ControlError) -> Seq<char> {
    match error {
        ControlError::NotPrivileged => "pausing a daemon takes superuser rights"@,
        ControlError::NoSuchProcess => "no such process"@,
        ControlError::DeliveryFailed => "the signal could not be delivered"@,
    }
}

impl ControlError {
    /// The text of the cause.
    pub fn message(&self) -> (text: String)
        ensures
            text@ == error_text(*self),
    {
        match self {
            ControlError::NotPrivileged => String::from_str(
                "pausing a daemon takes superuser rights",
            ),
            ControlError::NoSuchProcess => String::from_str("no such process"),
            ControlError::DeliveryFailed => String::from_str("the signal could not be delivered"),
        }
    }
}

/// Law: the pause signal flips the pause flag and nothing else, so two of
/// them in a row leave the run state as it was; none is lost or merged.
pub proof fn lemma_toggle_flips(rs: RunStateView)
    ensures
        signal_state(rs, ControlEvent::Toggle).paused == !rs.paused,
        signal_state(rs, ControlEvent::Toggle) == (RunStateView { paused: !rs.paused, ..rs }),
        signal_state(signal_state(rs, ControlEvent::Toggle), ControlEvent::Toggle) == rs,
{
}

/// Law: the loop sees a signal at its next cycle.  After a pause signal the
/// next cycle is paused exactly if the loop was not paused before; after a
/// stop signal the running flag is down, and a second stop signal changes
/// nothing and asks for nothing.
pub proof fn lemma_signal_is_seen(
    rs: RunStateView,
    cfg: ConfigView,
    load: nat,
    caps: Capabilities,
    policy: DisabledPolicy,
)
    ensures
        (cycle_outcome(signal_state(rs, ControlEvent::Toggle), cfg, load).state
            == BoosterState::Paused) == !rs.paused,
        !signal_state(rs, ControlEvent::Shutdown).running,
        signal_state(signal_state(rs, ControlEvent::Shutdown), ControlEvent::Shutdown)
            == signal_state(rs, ControlEvent::Shutdown),
        signal_outcome(
            signal_state(rs, ControlEvent::Shutdown),
            ControlEvent::Shutdown,
            caps,
            policy,
        ).revert.len() == 0,
        signal_outcome(
            signal_state(rs, ControlEvent::Shutdown),
            ControlEvent::Shutdown,
            caps,
            policy,
        ).notification is None,
{
}

} // verus!
