//! The window-management rules of the Anvil compositor: decorations drawn by
//! the server, requests of xdg-shell clients and the layout plugins.
//!
//! Everything here works on plain values. What the rules ask of the display
//! server comes back as a value too, and the caller carries it out. What only
//! the display server can compute, such as where a positioner puts a popup, is
//! handed in as a function: a program that links against smithay needs the
//! system library xkbcommon, and the rules alone do not.
pub mod geometry;
pub mod plugins;
pub mod shell;
