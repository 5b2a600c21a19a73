//! What holds of every run of the placement routine, proved over the
//! desktop in miniature.

use vstd::prelude::*;
use crate::desktop::{Desktop, WindowState};
use crate::geometry::{Lookup, WorkArea};
use crate::placement::Phase;
use crate::protocol::{Reply, Request};

verus! {

/// The window as it stands when `area` has been applied to it as far as
/// the desktop lets it, and it has been shown as far as the desktop lets it.
pub open spec fn placed(desktop: Desktop, window: WindowState, area: WorkArea) -> WindowState {
    WindowState {
        x: if desktop.position_fails { window.x } else { area.x },
        y: if desktop.position_fails { window.y } else { area.y },
        width: if desktop.size_fails { window.width } else { area.width },
        height: if desktop.size_fails { window.height } else { area.height },
        visible: window.visible || !desktop.show_fails,
    }
}

/// Where the current monitor is found, its work area is the one applied:
/// the window is moved to its corner, resized to its extent and shown, and
/// the primary monitor is never asked for, whatever it would have answered.
pub proof fn current_monitor_is_applied(desktop: Desktop, window: WindowState, area: WorkArea)
    requires
        desktop.window == Some(window),
        desktop.current == Lookup::Found(area),
    ensures
        desktop.requests() == seq![
            Request::FindWindow,
            Request::CurrentMonitor,
            Request::SetPosition { x: area.x, y: area.y },
            Request::SetSize { width: area.width, height: area.height },
            Request::Show,
        ],
        !desktop.requests().contains(Request::PrimaryMonitor),
        desktop.settled().window == Some(placed(desktop, window, area)),
{
    reveal_with_fuel(Desktop::requests_from, 7);
    reveal_with_fuel(Desktop::settled_from, 7);
}

/// Where the current monitor yields nothing and the primary monitor is
/// found, the primary monitor's work area is applied, and it is asked for
/// only after the current one.
pub proof fn primary_monitor_is_the_fallback(
    desktop: Desktop,
    window: WindowState,
    area: WorkArea,
)
    requires
        desktop.window == Some(window),
        desktop.current.resolved() is None,
        desktop.primary == Lookup::Found(area),
    ensures
        desktop.requests() == seq![
            Request::FindWindow,
            Request::CurrentMonitor,
            Request::PrimaryMonitor,
            Request::SetPosition { x: area.x, y: area.y },
            Request::SetSize { width: area.width, height: area.height },
            Request::Show,
        ],
        desktop.settled().window == Some(placed(desktop, window, area)),
{
    reveal_with_fuel(Desktop::requests_from, 7);
    reveal_with_fuel(Desktop::settled_from, 7);
}

/// Where neither monitor is found, the window keeps the position and the
/// size it had, and is still shown.
pub proof fn no_monitor_keeps_the_placement(desktop: Desktop, window: WindowState)
    requires
        desktop.window == Some(window),
        desktop.current.resolved() is None,
        desktop.primary.resolved() is None,
    ensures
        desktop.requests() == seq![
            Request::FindWindow,
            Request::CurrentMonitor,
            Request::PrimaryMonitor,
            Request::Show,
        ],
        desktop.settled().window == Some(
            WindowState { visible: window.visible || !desktop.show_fails, ..window },
        ),
{
    reveal_with_fuel(Desktop::requests_from, 7);
    reveal_with_fuel(Desktop::settled_from, 7);
}

/// A window that exists is asked to show exactly once, and that is the last
/// thing asked of the desktop: after the placement, whether that went
/// through, went through in part, or was never tried.
pub proof fn shown_exactly_once_and_last(desktop: Desktop)
    requires
        desktop.window is Some,
    ensures
        desktop.requests().len() > 0,
        desktop.requests().last() == Request::Show,
        forall|i: int|
            0 <= i < desktop.requests().len() - 1 ==> desktop.requests()[i] != Request::Show,
{
    let window = desktop.window->0;
    match desktop.current.resolved() {
        Some(area) => current_monitor_is_applied(desktop, window, area),
        None => match desktop.primary.resolved() {
            Some(area) => primary_monitor_is_the_fallback(desktop, window, area),
            None => no_monitor_keeps_the_placement(desktop, window),
        },
    }
}

/// What is asked of the desktop does not depend on which mutations fail: a
/// position that cannot be set does not keep the size from being set, nor
/// the other way round, and neither keeps the window from being shown.
pub proof fn failures_do_not_change_the_requests(desktop: Desktop, other: Desktop)
    requires
        other.window is Some <==> desktop.window is Some,
        other.current == desktop.current,
        other.primary == desktop.primary,
    ensures
        other.requests() == desktop.requests(),
{
    reveal_with_fuel(Desktop::requests_from, 7);
}

/// Whatever is reported of setting the position, the size is set next; and
/// whatever is reported of setting the size, the window is shown next.
pub proof fn each_mutation_is_followed_by_the_next(area: WorkArea, reply: Reply)
    ensures
        Phase::Positioning(area).next(reply).pending() == Some(
            Request::SetSize { width: area.width, height: area.height },
        ),
        Phase::Sizing(area).next(reply).pending() == Some(Request::Show),
        Phase::Showing.next(reply).pending() is None,
{
}

/// Without a main window the routine does nothing: it looks for the window
/// and stops, and the desktop is as it was.
pub proof fn missing_window_is_left_alone(desktop: Desktop)
    requires
        desktop.window is None,
    ensures
        desktop.requests() == seq![Request::FindWindow],
        desktop.settled() == desktop,
{
    reveal_with_fuel(Desktop::requests_from, 3);
    reveal_with_fuel(Desktop::settled_from, 3);
}

/// Every report moves the routine on: it ends after six operations at most,
/// and asks for none again.
pub proof fn every_step_comes_closer_to_the_end(phase: Phase, reply: Reply)
    requires
        phase != Phase::Finished,
    ensures
        phase.next(reply).remaining() < phase.remaining(),
        phase.remaining() <= 6,
{
}

} // verus!
