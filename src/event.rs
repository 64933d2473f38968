use vstd::prelude::*;

use crate::surface::Size;

verus! {

/// A key, as far as the event loop tells keys apart.
#[derive(Clone, Copy, Debug, PartialEq, Eq, Structural)]
pub enum Key {
    Escape,
    Other,
}

/// An event addressed to a window.
#[derive(Clone, Copy, Debug, PartialEq, Eq, Structural)]
pub enum WindowInput {
    CloseRequested,
    /// A key changed state; `key` is `None` when the system could not name it.
    KeyboardInput { pressed: bool, key: Option<Key> },
    Resized(Size),
    /// The display's scale changed, giving the window this new inner size.
    ScaleFactorChanged(Size),
    Other,
}

/// An event of the event loop.
#[derive(Clone, Copy, Debug, PartialEq, Eq, Structural)]
pub enum LoopEvent {
    /// `own_window` tells whether the event is addressed to the window drawn to.
    Window { event: WindowInput, own_window: bool },
    RedrawRequested { own_window: bool },
    /// Every pending event has been handled.
    MainEventsCleared,
    Other,
}

/// Why no frame could be acquired from the surface.
#[derive(Clone, Copy, Debug, PartialEq, Eq, Structural)]
pub enum SurfaceError {
    Timeout,
    Outdated,
    Lost,
    OutOfMemory,
}

/// What the event loop does next.
#[derive(Clone, Copy, Debug, PartialEq, Eq, Structural)]
pub enum Command {
    /// Nothing to do.
    Continue,
    /// End the program.
    Exit,
    /// Apply the state's surface configuration to the surface.
    Reconfigure,
    /// Draw and present one frame.
    Render,
    /// Ask the window for a redraw.
    RequestRedraw,
    /// Report the error; the frame is dropped.
    Report(SurfaceError),
}

} // verus!
