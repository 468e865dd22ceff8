use vstd::prelude::*;

verus! {

/// The failures that the engine reports to its caller.
#[derive(Clone, Copy, Debug, PartialEq, Eq, Structural)]
pub enum Error {
    /// The backend could not create the window or its graphics context, or
    /// the options it was given describe no window.
    Construction,
    /// An engine was asked for while another one was still alive.
    AlreadyRunning,
    /// The backend could not present the finished frame.
    Presentation,
}

} // verus!
