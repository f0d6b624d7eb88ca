//! The zoom controller: decode the persisted zoom level and step it.
//!
//! The zoom level is a rendering scale factor with domain 0.5 to 2.0 and
//! default 1.0. The library carries it as integer percent — 50 to 200,
//! default 100 — so every rule here is exact integer arithmetic. Each
//! adjustment moves the level by one step of 10 percent (0.1) and then
//! clamps it back into the domain. The persisted value is whatever the
//! host's settings store returned, already read and parsed by the host;
//! a missing or malformed entry degrades to the default rather than fail.

use vstd::prelude::*;

use crate::error::ShellError;

verus! {

/// Lower end of the zoom domain, in percent (a factor of 0.5).
pub const MIN_ZOOM_PERCENT: u32 = 50;

/// Upper end of the zoom domain, in percent (a factor of 2.0).
pub const MAX_ZOOM_PERCENT: u32 = 200;

/// The level applied when nothing usable is persisted (a factor of 1.0).
pub const DEFAULT_ZOOM_PERCENT: u32 = 100;

/// How far one adjustment moves the level, in percent (a step of 0.1).
pub const ZOOM_STEP_PERCENT: u32 = 10;

/// A zoom level inside the domain, as integer percent.
#[derive(Clone, Copy, Debug, PartialEq, Eq, Structural)]
pub struct ZoomLevel {
    pub percent: u32,
}

/// What the settings store held under the zoom key, as the host read it.
#[derive(Clone, Copy, Debug, PartialEq, Eq, Structural)]
pub enum StoredZoom {
    /// No value is persisted under the zoom key.
    Missing,
    /// A value is persisted but it is not a number.
    Invalid,
    /// A numeric value, converted to integer percent.
    Stored(i64),
}

/// The zoom domain: at least half and at most double the normal scale.
pub open spec fn zoom_in_range(percent: int) -> bool {
    MIN_ZOOM_PERCENT <= percent <= MAX_ZOOM_PERCENT
}

/// A value forced back into the zoom domain.
pub open spec fn clamped_zoom(v: int) -> int {
    if v < MIN_ZOOM_PERCENT {
        MIN_ZOOM_PERCENT as int
    } else if v > MAX_ZOOM_PERCENT {
        MAX_ZOOM_PERCENT as int
    } else {
        v
    }
}

/// The level a persisted value decodes to: the default when nothing numeric
/// is stored, otherwise the stored number clamped into the domain.
pub open spec fn decoded_zoom(stored: StoredZoom) -> int {
    match stored {
        StoredZoom::Stored(v) => clamped_zoom(v as int),
        StoredZoom::Missing => DEFAULT_ZOOM_PERCENT as int,
        StoredZoom::Invalid => DEFAULT_ZOOM_PERCENT as int,
    }
}

/// One adjustment: exactly one step up or down, then clamped.
pub open spec fn stepped_zoom(current: int, zoom_in: bool) -> int {
    if zoom_in {
        clamped_zoom(current + ZOOM_STEP_PERCENT)
    } else {
        clamped_zoom(current - ZOOM_STEP_PERCENT)
    }
}

impl ZoomLevel {
    /// The level lies inside the zoom domain.
    pub open spec fn in_range(self) -> bool {
        zoom_in_range(self.percent as int)
    }
}

/// Decode the persisted zoom level, degrading to the default on missing or
/// malformed data. This is the level a window gets when its saved zoom is
/// requested or re-applied at startup; handing it to the window never fails
/// on account of what the store held.
pub fn load_zoom_level(stored: &StoredZoom) -> (z: ZoomLevel)
    ensures
        z.percent == decoded_zoom(*stored),
        z.in_range(),
{
    match stored {
        StoredZoom::Stored(v) => {
            if *v < MIN_ZOOM_PERCENT as i64 {
                ZoomLevel { percent: MIN_ZOOM_PERCENT }
            } else if *v > MAX_ZOOM_PERCENT as i64 {
                ZoomLevel { percent: MAX_ZOOM_PERCENT }
            } else {
                ZoomLevel { percent: *v as u32 }
            }
        },
        StoredZoom::Missing => ZoomLevel { percent: DEFAULT_ZOOM_PERCENT },
        StoredZoom::Invalid => ZoomLevel { percent: DEFAULT_ZOOM_PERCENT },
    }
}

/// The new level an adjustment command settles on: the persisted level moved
/// by exactly one step in the requested direction, clamped into the domain.
pub fn adjust_zoom(stored: &StoredZoom, zoom_in: bool) -> (z: ZoomLevel)
    ensures
        z.percent == stepped_zoom(decoded_zoom(*stored), zoom_in),
        z.in_range(),
{
    let current = load_zoom_level(stored);
    if zoom_in {
        if current.percent + ZOOM_STEP_PERCENT > MAX_ZOOM_PERCENT {
            ZoomLevel { percent: MAX_ZOOM_PERCENT }
        } else {
            ZoomLevel { percent: current.percent + ZOOM_STEP_PERCENT }
        }
    } else {
        if current.percent < MIN_ZOOM_PERCENT + ZOOM_STEP_PERCENT {
            ZoomLevel { percent: MIN_ZOOM_PERCENT }
        } else {
            ZoomLevel { percent: current.percent - ZOOM_STEP_PERCENT }
        }
    }
}

/// The result an adjustment or re-application command reports once the host
/// has tried to hand the level to the window surface: the applied level on
/// success, a hard error when the native zoom call failed. A failure to
/// persist the level afterwards does not reach this decision — the zoom was
/// already applied, so the command still succeeds.
pub fn zoom_apply_outcome(level: ZoomLevel, applied: bool) -> (r: Result<ZoomLevel, ShellError>)
    ensures
        r is Ok <==> applied,
        applied ==> (r matches Ok(l) && l == level),
        !applied ==> (r matches Err(e) && e == ShellError::ZoomApplyFailed),
{
    if applied {
        Ok(level)
    } else {
        Err(ShellError::ZoomApplyFailed)
    }
}

/// The level after a whole run of adjustments, applied left to right.
pub open spec fn zoom_after_steps(start: int, directions: Seq<bool>) -> int
    decreases directions.len(),
{
    if directions.len() == 0 {
        start
    } else {
        stepped_zoom(zoom_after_steps(start, directions.drop_last()), directions.last())
    }
}

/// Law: a run of zoom adjustments, however long and in whatever directions,
/// never leaves the domain. The result stays between half and double the
/// normal scale — and since this holds of every run, it holds of every
/// prefix, so no intermediate level escapes either.
pub proof fn lemma_zoom_steps_stay_in_range(start: int, directions: Seq<bool>)
    requires
        zoom_in_range(start),
    ensures
        zoom_in_range(zoom_after_steps(start, directions)),
    decreases directions.len(),
{
    if directions.len() > 0 {
        lemma_zoom_steps_stay_in_range(start, directions.drop_last());
    }
}

} // verus!
