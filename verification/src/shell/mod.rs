//! Windows, their decorations and the xdg-shell requests.
pub mod element;
pub mod ssd;
pub mod xdg;

use vstd::prelude::*;

verus! {

/// The serial number of an input event or of a configure.
pub type Serial = u32;

/// What a window is made of.
#[derive(Clone, Copy, Debug, PartialEq, Eq, Structural)]
pub enum WindowSurface {
    /// A toplevel of a Wayland client.
    Wayland,
    /// A window of an X11 client.
    X11,
}

} // verus!
