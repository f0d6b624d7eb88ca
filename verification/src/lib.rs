//! Window-control logic for a desktop media-player shell.
//!
//! The shell hosts a web view and exposes a small command surface to the
//! embedded page: toggle fullscreen, adjust the rendering zoom, enter and
//! leave picture-in-picture, and start an interactive window drag. This
//! crate holds the decisions those commands make — which window a request
//! resolves to, what zoom level results from an adjustment, what geometry a
//! picture-in-picture window gets, and how failures of the native calls are
//! reported — as verified functions over plain values. The host process
//! performs the native window-manager calls and feeds their outcomes back.
//!
//! Zoom levels are carried as integer percent (100 is normal scale) so that
//! the clamping and stepping rules are exact; the host converts to the
//! fractional scale factor its web view expects at the boundary.

pub mod error;
pub mod fullscreen;
pub mod locator;
pub mod pip;
pub mod script;
pub mod zoom;
