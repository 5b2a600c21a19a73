//! What the placement routine asks of its host, and what the host answers.
//!
//! The routine never touches a window itself. It names one operation at a
//! time; the host performs it on the windowing system and reports back.

use vstd::prelude::*;
use crate::geometry::{Lookup, WorkArea};

verus! {

/// One operation on the windowing system.
#[derive(Clone, Copy, Debug, PartialEq, Eq, Structural)]
pub enum Request {
    /// Look up the main window by its label.
    FindWindow,
    /// Ask which monitor the window is on.
    CurrentMonitor,
    /// Ask for the monitor that the operating system calls primary.
    PrimaryMonitor,
    /// Move the window's top-left corner.
    SetPosition { x: i32, y: i32 },
    /// Resize the window.
    SetSize { width: u32, height: u32 },
    /// Make the window visible.
    Show,
}

/// The host's report on the operation it was asked for.
#[derive(Clone, Copy, Debug, PartialEq, Eq, Structural)]
pub enum Reply {
    /// Answers `FindWindow`.
    Window { found: bool },
    /// Answers `CurrentMonitor` and `PrimaryMonitor`.
    Monitor(Lookup),
    /// Answers `SetPosition`, `SetSize` and `Show`.
    Mutation { applied: bool },
}

impl Reply {
    /// Whether the reply says that the main window exists.
    pub open spec fn window_found(self) -> bool {
        self == (Reply::Window { found: true })
    }

    /// The work area that the reply carries. Only a monitor that was found
    /// carries one; every other reply counts as no monitor.
    pub open spec fn work_area(self) -> Option<WorkArea> {
        match self {
            Reply::Monitor(lookup) => lookup.resolved(),
            _ => None,
        }
    }

    /// Whether the reply says that the main window exists.
    pub fn is_window_found(&self) -> (found: bool)
        ensures
            found == self.window_found(),
    {
        match self {
            Reply::Window { found } => *found,
            _ => false,
        }
    }

    /// The work area of the monitor that the reply names, if it names one.
    pub fn monitor_area(&self) -> (area: Option<WorkArea>)
        ensures
            area == self.work_area(),
    {
        match self {
            Reply::Monitor(lookup) => lookup.resolve(),
            _ => None,
        }
    }
}

} // verus!
