//! Errors reported by the shell's window commands.

use vstd::prelude::*;

verus! {

/// What a shell command reports when it cannot complete.
///
/// Failures of native window-manager calls reach the library as booleans;
/// these variants say which call, or which fallback chain, gave up.
#[derive(Clone, Copy, Debug, PartialEq, Eq, Structural)]
pub enum ShellError {
    /// Window resolution exhausted every fallback: no window exists.
    WindowNotFound,
    /// The native call applying a zoom factor to the window surface failed.
    ZoomApplyFailed,
    /// Entering fullscreen failed and so did the maximize fallback.
    MaximizeFailed,
    /// Leaving fullscreen failed and so did the unmaximize fallback.
    UnmaximizeFailed,
    /// A native call failed while the window was reshaped for
    /// picture-in-picture or restored from it.
    PipApplyFailed,
}

} // verus!
