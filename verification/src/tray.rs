//! Decisions of the tray icon: its menu and the icon it shows.

use vstd::prelude::*;
use vstd::string::*;
use crate::booster::{classify, BoosterState, RunState, RunStateView};
use crate::icons;
use crate::notifier::{
    gate_output, notification_view, notify_idle, notify_paused, Notification, NotificationView,
    TITLE,
};

verus! {

/// An entry of the tray menu.
#[derive(Debug, Clone, Copy, PartialEq, Eq, Structural)]
pub enum TrayCommand {
    Pause,
    Resume,
    Quit,
}

/// What a click on the menu asks of the tray.
#[derive(Debug, Clone)]
pub struct TrayOutcome {
    /// The line for the log.
    pub message: String,
    /// The notification to display, if any.
    pub notification: Option<Notification>,
    /// Whether the program ends.
    pub quit: bool,
}

/// Mathematical value of a [`TrayOutcome`].
pub struct TrayView {
    pub message: Seq<char>,
    pub notification: Option<NotificationView>,
    pub quit: bool,
}

impl View for TrayOutcome {
    type V = TrayView;

    open spec fn view(&self) -> TrayView {
        TrayView {
            message: self.message@,
            notification: notification_view(self.notification),
            quit: self.quit,
        }
    }
}

/// Label of the menu entry that pauses the booster.
pub const PAUSE_LABEL: &'static str = "Pause Booster";

/// Label of the menu entry that lets the booster go on.
pub const RESUME_LABEL: &'static str = "Resume Booster";

/// Label of the menu entry that ends the program.
pub const QUIT_LABEL: &'static str = "Quit";

pub const PAUSED_LOG: &'static str = "Booster paused from tray";

pub const PAUSED_NOTICE: &'static str = "Booster paused";

pub const RESUMED_LOG: &'static str = "Booster resumed from tray";

pub const RESUMED_NOTICE: &'static str = "Booster resumed";

pub const QUIT_LOG: &'static str = "Tray quit clicked";

/// The load below which the tray shows the idle icon: 0.2, in millionths.
pub const TRAY_IDLE_THRESHOLD: u64 = 200_000;

/// Seconds between two updates of the tray icon.
pub const TRAY_REFRESH_SECONDS: u64 = 5;

/// The run state after a click: "Pause" sets the pause flag, "Resume"
/// clears it, and both leave their notice in the notification gate; "Quit"
/// changes nothing.
pub open spec fn tray_state(rs: RunStateView, command: TrayCommand) -> RunStateView {
    match command {
        TrayCommand::Pause => RunStateView {
            paused: true,
            last_message: Some(PAUSED_NOTICE@),
            ..rs
        },
        TrayCommand::Resume => RunStateView {
            paused: false,
            last_message: Some(RESUMED_NOTICE@),
            ..rs
        },
        TrayCommand::Quit => rs,
    }
}

/// What a click asks of the tray.
pub open spec fn tray_outcome(rs: RunStateView, command: TrayCommand) -> TrayView {
    match command {
        TrayCommand::Pause => TrayView {
            message: PAUSED_LOG@,
            notification: gate_output(rs.last_message, TITLE@, PAUSED_NOTICE@, icons::PAUSED@),
            quit: false,
        },
        TrayCommand::Resume => TrayView {
            message: RESUMED_LOG@,
            notification: gate_output(rs.last_message, TITLE@, RESUMED_NOTICE@, icons::IDLE@),
            quit: false,
        },
        TrayCommand::Quit => TrayView { message: QUIT_LOG@, notification: None, quit: true },
    }
}

/// Handles a click on the tray menu.
pub fn handle_tray_command(rs: &mut RunState, command: TrayCommand) -> (outcome: TrayOutcome)
    ensures
        final(rs)@ == tray_state(old(rs)@, command),
        outcome@ == tray_outcome(old(rs)@, command),
{
    match command {
        TrayCommand::Pause => {
            rs.paused = true;
            let notification = notify_paused(&mut rs.gate, PAUSED_NOTICE);
            TrayOutcome { message: String::from_str(PAUSED_LOG), notification, quit: false }
        },
        TrayCommand::Resume => {
            rs.paused = false;
            let notification = notify_idle(&mut rs.gate, RESUMED_NOTICE);
            TrayOutcome { message: String::from_str(RESUMED_LOG), notification, quit: false }
        },
        TrayCommand::Quit => TrayOutcome {
            message: String::from_str(QUIT_LOG),
            notification: None,
            quit: true,
        },
    }
}

/// The built-in icon of a state.
pub open spec fn builtin_icon(state: BoosterState) -> Seq<char> {
    match state {
        BoosterState::Paused => icons::PAUSED@,
        BoosterState::Idle => icons::IDLE@,
        BoosterState::Busy => icons::BUSY@,
    }
}

/// Picks the icon that the tray shows: the pause icon while the booster is
/// not enabled, else the idle icon below the tray's threshold and the busy
/// icon from it on.
pub fn select_icon(enabled: bool, load: u64) -> (icon: &'static str)
    ensures
        icon@ == builtin_icon(classify(!enabled, load as nat, TRAY_IDLE_THRESHOLD as nat)),
{
    if !enabled {
        icons::PAUSED
    } else if load < TRAY_IDLE_THRESHOLD {
        icons::IDLE
    } else {
        icons::BUSY
    }
}

} // verus!
