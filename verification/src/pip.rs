//! The picture-in-picture controller: the one stateful part of the shell.
//!
//! A session is either in normal mode or in picture-in-picture mode. On
//! entry the window's current geometry and decoration state are saved and
//! the window is reshaped into a small, undecorated, always-on-top overlay
//! anchored near the bottom-right corner of its monitor; on exit the saved
//! state is restored verbatim. The host performs the native calls that
//! reshape the window; [`PipSession::toggle_pip`] fixes the target state of
//! each transition and flips the mode flag, whether or not the host's calls
//! then succeed — a partial failure surfaces as an error but leaves the
//! flag flipped, exactly as the command reports it.

use vstd::prelude::*;

use crate::error::ShellError;

verus! {

/// A window or monitor extent in physical pixels.
#[derive(Clone, Copy, Debug, PartialEq, Eq, Structural)]
pub struct PixelSize {
    pub width: u32,
    pub height: u32,
}

/// A window origin in physical pixels, relative to the monitor's top-left.
#[derive(Clone, Copy, Debug, PartialEq, Eq, Structural)]
pub struct PixelPosition {
    pub x: i64,
    pub y: i64,
}

/// Everything a picture-in-picture transition touches on a window: its
/// extent, its origin, whether it is pinned above other windows, and
/// whether it carries native decorations.
#[derive(Clone, Copy, Debug, PartialEq, Eq, Structural)]
pub struct WindowState {
    pub size: PixelSize,
    pub position: PixelPosition,
    pub always_on_top: bool,
    pub decorations: bool,
}

/// The state a fresh session falls back on before anything was saved:
/// a decorated 800 by 600 window at the origin, not pinned on top.
pub open spec fn default_window_state() -> WindowState {
    WindowState {
        size: PixelSize { width: 800, height: 600 },
        position: PixelPosition { x: 0, y: 0 },
        always_on_top: false,
        decorations: true,
    }
}

impl Default for WindowState {
    /// The fallback window state, matching [`default_window_state`].
    fn default() -> (w: WindowState)
        ensures
            w == default_window_state(),
    {
        WindowState {
            size: PixelSize { width: 800, height: 600 },
            position: PixelPosition { x: 0, y: 0 },
            always_on_top: false,
            decorations: true,
        }
    }
}

/// The overlay takes three tenths of the monitor's width.
pub const PIP_WIDTH_NUMERATOR: u32 = 3;

/// Denominator of the overlay's width fraction.
pub const PIP_WIDTH_DENOMINATOR: u32 = 10;

/// The overlay takes one fifth of the monitor's height.
pub const PIP_HEIGHT_DENOMINATOR: u32 = 5;

/// Gap kept between the overlay and the monitor's right edge, in pixels.
pub const PIP_RIGHT_MARGIN: u32 = 50;

/// Gap kept between the overlay and the monitor's bottom edge, in pixels.
pub const PIP_BOTTOM_MARGIN: u32 = 150;

/// Width of the overlay on the given monitor.
pub open spec fn pip_width(monitor: PixelSize) -> int {
    monitor.width as int * PIP_WIDTH_NUMERATOR as int / PIP_WIDTH_DENOMINATOR as int
}

/// Height of the overlay on the given monitor.
pub open spec fn pip_height(monitor: PixelSize) -> int {
    monitor.height as int / PIP_HEIGHT_DENOMINATOR as int
}

/// Horizontal origin of the overlay: flush with the right edge minus the
/// margin, but never to the left of the monitor's own origin.
pub open spec fn pip_x(monitor: PixelSize) -> int {
    let v = monitor.width - pip_width(monitor) - PIP_RIGHT_MARGIN;
    if v < 0 {
        0
    } else {
        v
    }
}

/// Vertical origin of the overlay: flush with the bottom edge minus the
/// margin, but never above the monitor's own origin.
pub open spec fn pip_y(monitor: PixelSize) -> int {
    let v = monitor.height - pip_height(monitor) - PIP_BOTTOM_MARGIN;
    if v < 0 {
        0
    } else {
        v
    }
}

/// The full window state a picture-in-picture entry aims for on the given
/// monitor: the corner-anchored overlay rectangle, pinned on top, with
/// decorations stripped.
pub open spec fn pip_entry_target(monitor: PixelSize) -> WindowState {
    WindowState {
        size: PixelSize {
            width: pip_width(monitor) as u32,
            height: pip_height(monitor) as u32,
        },
        position: PixelPosition { x: pip_x(monitor) as i64, y: pip_y(monitor) as i64 },
        always_on_top: true,
        decorations: false,
    }
}

/// Compute the overlay state for the given monitor. The rectangle is a
/// fixed fraction of the monitor, anchored at the bottom-right corner with
/// fixed margins, and its origin is clamped so it is never negative — a
/// monitor smaller than the margins still yields the origin.
pub fn pip_entry_state(monitor: PixelSize) -> (w: WindowState)
    ensures
        w == pip_entry_target(monitor),
        0 <= w.position.x,
        0 <= w.position.y,
        w.size.width <= monitor.width,
        w.size.height <= monitor.height,
        w.always_on_top,
        !w.decorations,
{
    proof {
        vstd::arithmetic::div_mod::lemma_div_is_ordered(
            monitor.width as int * PIP_WIDTH_NUMERATOR as int,
            monitor.width as int * PIP_WIDTH_DENOMINATOR as int,
            PIP_WIDTH_DENOMINATOR as int,
        );
        vstd::arithmetic::div_mod::lemma_div_multiples_vanish(
            monitor.width as int,
            PIP_WIDTH_DENOMINATOR as int,
        );
        vstd::arithmetic::div_mod::lemma_div_nonincreasing(
            monitor.height as int,
            PIP_HEIGHT_DENOMINATOR as int,
        );
    }
    let width = (monitor.width as u64 * PIP_WIDTH_NUMERATOR as u64
        / PIP_WIDTH_DENOMINATOR as u64) as u32;
    let height = monitor.height / PIP_HEIGHT_DENOMINATOR;
    let right = monitor.width as i64 - width as i64 - PIP_RIGHT_MARGIN as i64;
    let bottom = monitor.height as i64 - height as i64 - PIP_BOTTOM_MARGIN as i64;
    WindowState {
        size: PixelSize { width, height },
        position: PixelPosition {
            x: if right < 0 {
                0
            } else {
                right
            },
            y: if bottom < 0 {
                0
            } else {
                bottom
            },
        },
        always_on_top: true,
        decorations: false,
    }
}

/// What one toggle asks of the host: the mode the session is now in, and
/// the full window state the host must apply to carry the transition out.
#[derive(Clone, Copy, Debug, PartialEq, Eq, Structural)]
pub struct PipTransition {
    /// The session's mode after the toggle; also the payload of the
    /// state-change notification the host emits, best effort.
    pub now_active: bool,
    /// The window state to apply: the overlay on entry, the saved state on
    /// exit. The host applies every field, then shows and focuses the
    /// window.
    pub target: WindowState,
}

/// The picture-in-picture session: the current mode and the window state
/// saved on the last entry. Exactly one session exists per process, owned
/// by the host and handed to each command.
#[derive(Clone, Copy, Debug, PartialEq, Eq, Structural)]
pub struct PipSession {
    pub active: bool,
    pub saved: WindowState,
}

/// What a toggle does to the session and what it asks of the host. Leaving
/// normal mode saves the window's current state and aims for the overlay;
/// leaving picture-in-picture mode restores the saved state verbatim. The
/// flag flips either way.
pub open spec fn toggle_pip_transition(
    session: PipSession,
    current: WindowState,
    monitor: PixelSize,
) -> (PipSession, PipTransition) {
    if session.active {
        (
            PipSession { active: false, saved: session.saved },
            PipTransition { now_active: false, target: session.saved },
        )
    } else {
        (
            PipSession { active: true, saved: current },
            PipTransition { now_active: true, target: pip_entry_target(monitor) },
        )
    }
}

impl PipSession {
    /// A session that has never entered picture-in-picture: inactive, with
    /// the fallback window state on file.
    pub fn new() -> (s: PipSession)
        ensures
            !s.active,
            s.saved == default_window_state(),
    {
        PipSession { active: false, saved: WindowState::default() }
    }

    /// Whether picture-in-picture is on: a pure read of the flag set by the
    /// most recent toggle, successful or not.
    pub fn is_pip_active(&self) -> (r: bool)
        ensures
            r == self.active,
    {
        self.active
    }

    /// Toggle picture-in-picture. `current` is the window state the host
    /// read just before the call (used only when entering, where it is
    /// saved); `monitor` is the extent of the monitor the window sits on
    /// (used only when entering, to shape the overlay). The returned
    /// transition tells the host what to apply; the mode flag is already
    /// flipped when this returns, so a failure among the host's calls
    /// leaves the session in the new mode, as the command reports.
    pub fn toggle_pip(&mut self, current: &WindowState, monitor: PixelSize) -> (t: PipTransition)
        ensures
            (*final(self), t) == toggle_pip_transition(*old(self), *current, monitor),
            final(self).active == !old(self).active,
            t.now_active == final(self).active,
    {
        if self.active {
            self.active = false;
            PipTransition { now_active: false, target: self.saved }
        } else {
            self.active = true;
            self.saved = *current;
            PipTransition { now_active: true, target: pip_entry_state(monitor) }
        }
    }
}

/// What the toggle command reports once the host has tried to apply the
/// transition: the new mode on success, an error when any native call
/// failed. The session's flag stays flipped either way.
pub fn pip_toggle_outcome(t: PipTransition, applied: bool) -> (r: Result<bool, ShellError>)
    ensures
        r is Ok <==> applied,
        applied ==> (r matches Ok(b) && b == t.now_active),
        !applied ==> (r matches Err(e) && e == ShellError::PipApplyFailed),
{
    if applied {
        Ok(t.now_active)
    } else {
        Err(ShellError::PipApplyFailed)
    }
}

/// Law: toggling twice in a row, with no intervening manual window changes,
/// restores the window exactly. Entering from `current` and leaving again
/// hands the host `current` back — size, position, always-on-top and
/// decorations alike — and the session ends up inactive with that state
/// still on file.
pub proof fn lemma_toggle_pip_round_trip(
    session: PipSession,
    current: WindowState,
    monitor: PixelSize,
)
    requires
        !session.active,
    ensures
        ({
            let (entered, _) = toggle_pip_transition(session, current, monitor);
            let (left, back) = toggle_pip_transition(
                entered,
                pip_entry_target(monitor),
                monitor,
            );
            &&& back.target == current
            &&& !left.active
            &&& left.saved == current
        }),
{
}

/// Law: the mode a toggle reports is the mode the session is then in, and
/// it is the opposite of the mode before — whether or not the host's calls
/// succeed afterwards, since the flag does not wait for them.
pub proof fn lemma_toggle_pip_reports_new_state(
    session: PipSession,
    current: WindowState,
    monitor: PixelSize,
)
    ensures
        ({
            let (after, t) = toggle_pip_transition(session, current, monitor);
            &&& t.now_active == after.active
            &&& after.active == !session.active
        }),
{
}

} // verus!
