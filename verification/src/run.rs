//! Runs of the daemon: what holds over any sequence of cycles, signals and
//! clicks on the tray menu, in whatever order they come.

use vstd::prelude::*;
use crate::booster::{cycle_outcome, cycle_state, RunStateView};
use crate::config::ConfigView;
use crate::control::{signal_notification, signal_state, ControlEvent};
use crate::notifier::NotificationView;
use crate::tray::{tray_outcome, tray_state, TrayCommand};

verus! {

/// One thing that happens to a daemon.
pub enum Event {
    /// The loop comes to the top of a cycle and finds this load.
    Cycle { load: nat },
    /// A signal arrives.
    Signal(ControlEvent),
    /// An entry of the tray menu is clicked.
    Click(TrayCommand),
}

/// The run state after an event.  A loop that was told to stop decides
/// nothing at the top of a cycle.
pub open spec fn state_after(rs: RunStateView, cfg: ConfigView, event: Event) -> RunStateView {
    match event {
        Event::Cycle { load } => if rs.running {
            cycle_state(rs, cfg, load)
        } else {
            rs
        },
        Event::Signal(signal) => signal_state(rs, signal),
        Event::Click(command) => tray_state(rs, command),
    }
}

/// The notification that an event lets out, if any.
pub open spec fn notification_of(rs: RunStateView, cfg: ConfigView, event: Event) -> Option<
    NotificationView,
> {
    match event {
        Event::Cycle { load } => if rs.running {
            cycle_outcome(rs, cfg, load).notification
        } else {
            None
        },
        Event::Signal(signal) => signal_notification(rs, signal),
        Event::Click(command) => tray_outcome(rs, command).notification,
    }
}

/// The run state after a sequence of events.
pub open spec fn state_after_all(rs: RunStateView, cfg: ConfigView, events: Seq<Event>) -> RunStateView
    decreases events.len(),
{
    if events.len() == 0 {
        rs
    } else {
        state_after(state_after_all(rs, cfg, events.drop_last()), cfg, events.last())
    }
}

/// The notifications that a sequence of events lets out, in their order.
pub open spec fn notifications_of_all(rs: RunStateView, cfg: ConfigView, events: Seq<Event>) -> Seq<
    NotificationView,
>
    decreases events.len(),
{
    if events.len() == 0 {
        Seq::empty()
    } else {
        let before = notifications_of_all(rs, cfg, events.drop_last());
        match notification_of(state_after_all(rs, cfg, events.drop_last()), cfg, events.last()) {
            Some(n) => before.push(n),
            None => before,
        }
    }
}

/// One event and the notification gate: a notification that is let out
/// carries another message than the one that was held, and its message is
/// held afterwards; where nothing is let out, the message that is held
/// stays.
pub proof fn lemma_event_and_gate(rs: RunStateView, cfg: ConfigView, event: Event)
    ensures
        match notification_of(rs, cfg, event) {
            Some(n) => rs.last_message != Some(n.message) && state_after(
                rs,
                cfg,
                event,
            ).last_message == Some(n.message),
            None => state_after(rs, cfg, event).last_message == rs.last_message,
        },
{
}

/// Law: no notification spam.  In any run, no two notifications in a row
/// carry the same message; the first carries another message than the one
/// held at the start; and the message held at the end is that of the last
/// notification, or the one held at the start where there was none.
pub proof fn lemma_no_message_twice_in_a_row(rs: RunStateView, cfg: ConfigView, events: Seq<Event>)
    ensures
        forall|i: int|
            0 <= i < notifications_of_all(rs, cfg, events).len() - 1 ==> (#[trigger] notifications_of_all(
                rs,
                cfg,
                events,
            )[i]).message != notifications_of_all(rs, cfg, events)[i + 1].message,
        notifications_of_all(rs, cfg, events).len() > 0 ==> rs.last_message != Some(
            notifications_of_all(rs, cfg, events)[0].message,
        ),
        state_after_all(rs, cfg, events).last_message == (if notifications_of_all(
            rs,
            cfg,
            events,
        ).len() > 0 {
            Some(notifications_of_all(rs, cfg, events).last().message)
        } else {
            rs.last_message
        }),
    decreases events.len(),
{
    if events.len() > 0 {
        lemma_no_message_twice_in_a_row(rs, cfg, events.drop_last());
        lemma_event_and_gate(state_after_all(rs, cfg, events.drop_last()), cfg, events.last());
    }
}

/// Law: a daemon that was told to stop stays stopped, and its loop neither
/// changes the run state nor lets anything out any more.
pub proof fn lemma_stopped_stays_stopped(rs: RunStateView, cfg: ConfigView, events: Seq<Event>)
    requires
        !rs.running,
    ensures
        !state_after_all(rs, cfg, events).running,
        forall|load: nat|
            state_after(state_after_all(rs, cfg, events), cfg, Event::Cycle { load })
                == state_after_all(rs, cfg, events),
        forall|load: nat|
            notification_of(state_after_all(rs, cfg, events), cfg, Event::Cycle { load }) is None,
    decreases events.len(),
{
    if events.len() > 0 {
        lemma_stopped_stays_stopped(rs, cfg, events.drop_last());
    }
}

/// The pause signal, `n` times in a row.
pub open spec fn toggles(n: nat) -> Seq<Event> {
    Seq::new(n, |i: int| Event::Signal(ControlEvent::Toggle))
}

/// Law: pause signals are neither lost nor merged.  After `n` of them in a
/// row the pause flag is flipped if `n` is odd and as before if `n` is
/// even, and nothing else has changed.
pub proof fn lemma_toggles_count(rs: RunStateView, cfg: ConfigView, n: nat)
    ensures
        state_after_all(rs, cfg, toggles(n)) == (RunStateView {
            paused: if n % 2 == 1 {
                !rs.paused
            } else {
                rs.paused
            },
            ..rs
        }),
    decreases n,
{
    if n > 0 {
        lemma_toggles_count(rs, cfg, (n - 1) as nat);
        assert(toggles(n).drop_last() =~= toggles((n - 1) as nat));
        assert(toggles(n).last() == Event::Signal(ControlEvent::Toggle));
    }
}

/// A load below the idle threshold, `n` times in a row.
pub open spec fn same_load(load: nat, n: nat) -> Seq<Event> {
    Seq::new(n, |i: int| Event::Cycle { load })
}

/// Law: the count of idle cycles.  After `n` idle cycles in a row of a
/// loop that runs and is not paused, the count has grown by `n`, as long as
/// it fits.
pub proof fn lemma_idle_cycles_are_counted(rs: RunStateView, cfg: ConfigView, load: nat, n: nat)
    requires
        rs.running,
        !rs.paused,
        load < cfg.idle_load_threshold,
        rs.idle_cycles + n <= u32::MAX,
    ensures
        state_after_all(rs, cfg, same_load(load, n)).idle_cycles == rs.idle_cycles + n,
        state_after_all(rs, cfg, same_load(load, n)).running,
        !state_after_all(rs, cfg, same_load(load, n)).paused,
    decreases n,
{
    if n > 0 {
        lemma_idle_cycles_are_counted(rs, cfg, load, (n - 1) as nat);
        assert(same_load(load, n).drop_last() =~= same_load(load, (n - 1) as nat));
        assert(same_load(load, n).last() == Event::Cycle { load });
    }
}

} // verus!
