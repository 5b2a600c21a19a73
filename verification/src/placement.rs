//! The startup placement routine, as a machine that its host drives.
//!
//! On launch the main window is moved and resized to fill the work area of
//! the monitor it is on, or of the primary monitor where that one cannot be
//! told, and is then shown. Every step may fail and none is fatal: a step
//! that fails is passed over and the routine goes on.
//!
//! The routine decides; the host acts. `start` names the first operation,
//! and `step` takes the host's report on the last one and names the next,
//! until there is none.

use vstd::prelude::*;
use crate::geometry::WorkArea;
use crate::protocol::{Reply, Request};

verus! {

/// How far the routine has come: the operation whose report it waits for.
#[derive(Clone, Copy, Debug, PartialEq, Eq, Structural)]
pub enum Phase {
    /// The main window is being looked up.
    FindingWindow,
    /// The monitor under the window is being asked for.
    QueryingCurrent,
    /// The primary monitor is being asked for.
    QueryingPrimary,
    /// The window is being moved to the corner of this work area.
    Positioning(WorkArea),
    /// The window is being resized to the extent of this work area.
    Sizing(WorkArea),
    /// The window is being made visible.
    Showing,
    /// Nothing is left to do.
    Finished,
}

impl Phase {
    /// The operation that the host is to perform in this phase; none once
    /// the routine has finished.
    pub open spec fn pending(self) -> Option<Request> {
        match self {
            Phase::FindingWindow => Some(Request::FindWindow),
            Phase::QueryingCurrent => Some(Request::CurrentMonitor),
            Phase::QueryingPrimary => Some(Request::PrimaryMonitor),
            Phase::Positioning(area) => Some(Request::SetPosition { x: area.x, y: area.y }),
            Phase::Sizing(area) => Some(
                Request::SetSize { width: area.width, height: area.height },
            ),
            Phase::Showing => Some(Request::Show),
            Phase::Finished => None,
        }
    }

    /// The phase that follows once the host has reported `reply`.
    ///
    /// Without a window nothing is done at all. The primary monitor is asked
    /// for only when the current one yields no work area. A work area, once
    /// there is one, is applied in two operations, and whatever is reported
    /// of the first, the second follows. Showing the window comes last, with
    /// or without a placement before it.
    ///
    /// A reply of a kind that does not answer the pending operation is read
    /// as the report of a failure.
    pub open spec fn next(self, reply: Reply) -> Phase {
        match self {
            Phase::FindingWindow => if reply.window_found() {
                Phase::QueryingCurrent
            } else {
                Phase::Finished
            },
            Phase::QueryingCurrent => match reply.work_area() {
                Some(area) => Phase::Positioning(area),
                None => Phase::QueryingPrimary,
            },
            Phase::QueryingPrimary => match reply.work_area() {
                Some(area) => Phase::Positioning(area),
                None => Phase::Showing,
            },
            Phase::Positioning(area) => Phase::Sizing(area),
            Phase::Sizing(_) => Phase::Showing,
            Phase::Showing => Phase::Finished,
            Phase::Finished => Phase::Finished,
        }
    }

    /// An upper bound on the operations still to come, the pending one
    /// included.
    pub open spec fn remaining(self) -> nat {
        match self {
            Phase::FindingWindow => 6,
            Phase::QueryingCurrent => 5,
            Phase::QueryingPrimary => 4,
            Phase::Positioning(_) => 3,
            Phase::Sizing(_) => 2,
            Phase::Showing => 1,
            Phase::Finished => 0,
        }
    }

    /// The operation that the host is to perform now, if any is left.
    pub fn request(&self) -> (request: Option<Request>)
        ensures
            request == self.pending(),
    {
        match self {
            Phase::FindingWindow => Some(Request::FindWindow),
            Phase::QueryingCurrent => Some(Request::CurrentMonitor),
            Phase::QueryingPrimary => Some(Request::PrimaryMonitor),
            Phase::Positioning(area) => Some(Request::SetPosition { x: area.x, y: area.y }),
            Phase::Sizing(area) => Some(
                Request::SetSize { width: area.width, height: area.height },
            ),
            Phase::Showing => Some(Request::Show),
            Phase::Finished => None,
        }
    }
}

/// The label under which the host knows the main window: the one that
/// `Request::FindWindow` asks for.
pub fn main_window_label() -> (label: &'static str)
    ensures
        label@ == "main"@,
{
    "main"
}

/// The phase in which the routine starts.
pub open spec fn initial() -> Phase {
    Phase::FindingWindow
}

/// Starts the routine: the first phase, and the operation to perform in it.
pub fn start() -> (first: (Phase, Option<Request>))
    ensures
        first.0 == initial(),
        first.1 == initial().pending(),
{
    let phase = Phase::FindingWindow;
    let request = phase.request();
    (phase, request)
}

/// Takes the host's report on the pending operation and decides how the
/// routine goes on: the phase that follows, and the operation to perform in
/// it. No operation means that the routine has finished; it reports no
/// failure, whatever the host reported.
pub fn step(phase: Phase, reply: Reply) -> (then: (Phase, Option<Request>))
    ensures
        then.0 == phase.next(reply),
        then.1 == phase.next(reply).pending(),
{
    let following = match phase {
        Phase::FindingWindow => {
            if reply.is_window_found() {
                Phase::QueryingCurrent
            } else {
                Phase::Finished
            }
        },
        Phase::QueryingCurrent => match reply.monitor_area() {
            Some(area) => Phase::Positioning(area),
            None => Phase::QueryingPrimary,
        },
        Phase::QueryingPrimary => match reply.monitor_area() {
            Some(area) => Phase::Positioning(area),
            None => Phase::Showing,
        },
        Phase::Positioning(area) => Phase::Sizing(area),
        Phase::Sizing(_) => Phase::Showing,
        Phase::Showing => Phase::Finished,
        Phase::Finished => Phase::Finished,
    };
    let request = following.request();
    (following, request)
}

} // verus!
