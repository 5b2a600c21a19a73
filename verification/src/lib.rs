//! Native backend of a desktop application shell: the greeting handler and
//! the routine that places the main window on startup.

pub mod desktop;
pub mod geometry;
pub mod greeting;
pub mod laws;
pub mod placement;
pub mod protocol;
