//! Plain values for what the routine reads from a display and writes to a
//! window, in physical pixels.

use vstd::prelude::*;

verus! {

/// The part of a display that application windows may cover: the display
/// without the bars and docks that the operating system keeps for itself.
#[derive(Clone, Copy, Debug, PartialEq, Eq, Structural)]
pub struct WorkArea {
    /// Horizontal offset of the top-left corner.
    pub x: i32,
    /// Vertical offset of the top-left corner.
    pub y: i32,
    pub width: u32,
    pub height: u32,
}

/// What a monitor query came back with.
#[derive(Clone, Copy, Debug, PartialEq, Eq, Structural)]
pub enum Lookup {
    /// The query itself failed.
    Failed,
    /// The query went through and named no monitor.
    Absent,
    /// The query named a monitor with this work area.
    Found(WorkArea),
}

impl Lookup {
    /// The work area that the query yields. A failed query yields as little
    /// as one that names no monitor: why there is none is of no interest.
    pub open spec fn resolved(self) -> Option<WorkArea> {
        match self {
            Lookup::Found(area) => Some(area),
            _ => None,
        }
    }

    /// The work area of the monitor that was found, if one was.
    pub fn resolve(&self) -> (area: Option<WorkArea>)
        ensures
            area == self.resolved(),
    {
        match self {
            Lookup::Found(area) => Some(*area),
            _ => None,
        }
    }
}

} // verus!
