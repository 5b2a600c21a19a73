//! A desktop in miniature: one window that may or may not exist, the two
//! monitor queries with fixed answers, and three mutations that each either
//! take effect or fail.
//!
//! It answers the routine's requests as a windowing system would, which is
//! what the statements about whole runs are made over, and it can be run,
//! which is how a host is tried out without a screen.

use vstd::prelude::*;
use crate::geometry::Lookup;
use crate::placement::{initial, start, step, Phase};
use crate::protocol::{Reply, Request};

verus! {

/// Where a window is, how large it is, and whether it can be seen.
#[derive(Clone, Copy, Debug, PartialEq, Eq, Structural)]
pub struct WindowState {
    pub x: i32,
    pub y: i32,
    pub width: u32,
    pub height: u32,
    pub visible: bool,
}

/// The surroundings of one run of the routine.
#[derive(Clone, Copy, Debug, PartialEq, Eq, Structural)]
pub struct Desktop {
    /// The main window, if there is one.
    pub window: Option<WindowState>,
    /// What asking for the monitor under the window comes back with.
    pub current: Lookup,
    /// What asking for the primary monitor comes back with.
    pub primary: Lookup,
    /// Whether moving the window fails.
    pub position_fails: bool,
    /// Whether resizing the window fails.
    pub size_fails: bool,
    /// Whether showing the window fails.
    pub show_fails: bool,
}

impl WindowState {
    /// The window after `request` has taken effect on it. Only the three
    /// mutations change a window.
    pub open spec fn after(self, request: Request) -> WindowState {
        match request {
            Request::SetPosition { x, y } => WindowState { x, y, ..self },
            Request::SetSize { width, height } => WindowState { width, height, ..self },
            Request::Show => WindowState { visible: true, ..self },
            _ => self,
        }
    }
}

impl Desktop {
    /// Whether `request` fails on this desktop. A mutation fails where the
    /// desktop says so, and where there is no window to change.
    pub open spec fn refuses(self, request: Request) -> bool {
        match request {
            Request::SetPosition { .. } => self.position_fails || self.window is None,
            Request::SetSize { .. } => self.size_fails || self.window is None,
            Request::Show => self.show_fails || self.window is None,
            _ => false,
        }
    }

    /// The report that this desktop gives on `request`.
    pub open spec fn reply_to(self, request: Request) -> Reply {
        match request {
            Request::FindWindow => Reply::Window { found: self.window is Some },
            Request::CurrentMonitor => Reply::Monitor(self.current),
            Request::PrimaryMonitor => Reply::Monitor(self.primary),
            _ => Reply::Mutation { applied: !self.refuses(request) },
        }
    }

    /// The desktop once `request` has been performed on it. A request that
    /// fails leaves everything as it was.
    pub open spec fn served(self, request: Request) -> Desktop {
        match self.window {
            Some(window) => if self.refuses(request) {
                self
            } else {
                Desktop { window: Some(window.after(request)), ..self }
            },
            None => self,
        }
    }

    /// The desktop at the end of a run that stands in `phase`.
    pub open spec fn settled_from(self, phase: Phase) -> Desktop
        decreases phase.remaining(),
    {
        match phase.pending() {
            Some(request) => self.served(request).settled_from(
                phase.next(self.reply_to(request)),
            ),
            None => self,
        }
    }

    /// The requests that the rest of a run makes, in order, from `phase` on.
    pub open spec fn requests_from(self, phase: Phase) -> Seq<Request>
        decreases phase.remaining(),
    {
        match phase.pending() {
            Some(request) => seq![request] + self.served(request).requests_from(
                phase.next(self.reply_to(request)),
            ),
            None => Seq::empty(),
        }
    }

    /// The desktop after the routine has run on it from the start.
    pub open spec fn settled(self) -> Desktop {
        self.settled_from(initial())
    }

    /// The requests that the routine makes of this desktop, in order, when
    /// it runs from the start.
    pub open spec fn requests(self) -> Seq<Request> {
        self.requests_from(initial())
    }

    /// Performs `request` on the desktop and reports on it.
    pub fn serve(&mut self, request: Request) -> (reply: Reply)
        ensures
            reply == old(self).reply_to(request),
            *final(self) == old(self).served(request),
    {
        match request {
            Request::FindWindow => Reply::Window { found: self.window.is_some() },
            Request::CurrentMonitor => Reply::Monitor(self.current),
            Request::PrimaryMonitor => Reply::Monitor(self.primary),
            Request::SetPosition { x, y } => {
                match self.window {
                    Some(window) => {
                        if self.position_fails {
                            Reply::Mutation { applied: false }
                        } else {
                            self.window = Some(WindowState { x, y, ..window });
                            Reply::Mutation { applied: true }
                        }
                    },
                    None => Reply::Mutation { applied: false },
                }
            },
            Request::SetSize { width, height } => {
                match self.window {
                    Some(window) => {
                        if self.size_fails {
                            Reply::Mutation { applied: false }
                        } else {
                            self.window = Some(WindowState { width, height, ..window });
                            Reply::Mutation { applied: true }
                        }
                    },
                    None => Reply::Mutation { applied: false },
                }
            },
            Request::Show => {
                match self.window {
                    Some(window) => {
                        if self.show_fails {
                            Reply::Mutation { applied: false }
                        } else {
                            self.window = Some(WindowState { visible: true, ..window });
                            Reply::Mutation { applied: true }
                        }
                    },
                    None => Reply::Mutation { applied: false },
                }
            },
        }
    }

    /// Runs the routine on the desktop from start to finish, as a host
    /// does, and returns the requests that were made, in order.
    pub fn run(&mut self) -> (made: Vec<Request>)
        ensures
            made@ == old(self).requests(),
            *final(self) == old(self).settled(),
    {
        let mut made: Vec<Request> = Vec::new();
        let first = start();
        let mut phase = first.0;
        let mut request = first.1;
        while request.is_some()
            invariant
                request == phase.pending(),
                old(self).requests() == made@ + self.requests_from(phase),
                old(self).settled() == self.settled_from(phase),
            decreases phase.remaining(),
        {
            let pending = request.unwrap();
            let reply = self.serve(pending);
            made.push(pending);
            let then = step(phase, reply);
            phase = then.0;
            request = then.1;
        }
        made
    }
}

} // verus!
