//! The fullscreen controller: the fallback policy for setting fullscreen.
//!
//! The command's primary action is the native fullscreen call. When that
//! call fails, the host attempts a degraded substitute — maximize when
//! entering fullscreen, unmaximize when leaving — and the whole command
//! fails only when the substitute fails too. The host performs the native
//! calls; the functions here fix which substitute is owed and what the
//! command reports for each combination of outcomes.

use vstd::prelude::*;

use crate::error::ShellError;

verus! {

/// The degraded substitute attempted when the native fullscreen call fails.
#[derive(Clone, Copy, Debug, PartialEq, Eq, Structural)]
pub enum FullscreenFallback {
    /// Entering fullscreen falls back to maximizing the window.
    Maximize,
    /// Leaving fullscreen falls back to unmaximizing the window.
    Unmaximize,
}

/// The substitute owed for the requested state: maximize stands in for
/// entering fullscreen, unmaximize for leaving it.
pub fn fullscreen_fallback(is_fullscreen: bool) -> (r: FullscreenFallback)
    ensures
        r == (if is_fullscreen {
            FullscreenFallback::Maximize
        } else {
            FullscreenFallback::Unmaximize
        }),
{
    if is_fullscreen {
        FullscreenFallback::Maximize
    } else {
        FullscreenFallback::Unmaximize
    }
}

/// What the fullscreen command reports. `primary_ok` is the outcome of the
/// native fullscreen call; `fallback_ok` is the outcome of the substitute,
/// which the host attempts only when the primary call failed (when the
/// primary succeeded the host passes `true`, and the value is not consulted).
/// The command succeeds if and only if either call succeeded, and names the
/// substitute that gave up otherwise.
pub fn toggle_fullscreen(is_fullscreen: bool, primary_ok: bool, fallback_ok: bool) -> (r: Result<
    (),
    ShellError,
>)
    ensures
        r is Ok <==> (primary_ok || fallback_ok),
        !primary_ok && !fallback_ok ==> (r matches Err(e) && e == (if is_fullscreen {
            ShellError::MaximizeFailed
        } else {
            ShellError::UnmaximizeFailed
        })),
{
    if primary_ok || fallback_ok {
        Ok(())
    } else if is_fullscreen {
        Err(ShellError::MaximizeFailed)
    } else {
        Err(ShellError::UnmaximizeFailed)
    }
}

} // verus!
