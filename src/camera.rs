//! The orientation of a free-look camera: yaw, pitch and field of view,
//! accumulated from look and zoom commands.
//!
//! Angles are held in thousandths of a degree, so that accumulation is exact
//! and the clamps hold to the unit.
use vstd::prelude::*;

verus! {

/// Angle units in one degree.
pub const UNITS_PER_DEGREE: i64 = 1000;

/// The largest pitch above or below the horizon, in angle units (89°).
pub const PITCH_LIMIT: i64 = 89_000;

/// The narrowest field of view, in angle units (5°).
pub const FOV_MIN: i64 = 5_000;

/// The widest field of view, in angle units (120°).
pub const FOV_MAX: i64 = 120_000;

/// `x` held within `lo..=hi`.
pub open spec fn clamp(x: int, lo: int, hi: int) -> int {
    if x < lo {
        lo
    } else if x > hi {
        hi
    } else {
        x
    }
}

/// Yaw, pitch and field of view, in angle units.
pub struct OrientationView {
    pub yaw: int,
    pub pitch: int,
    pub fov: int,
}

/// The angles every orientation keeps to: pitch within the limit on either
/// side of the horizon, field of view within its bounds. Yaw is unbounded:
/// angles a whole turn apart look the same way.
pub open spec fn angles_in_range(v: OrientationView) -> bool {
    &&& -PITCH_LIMIT <= v.pitch <= PITCH_LIMIT
    &&& FOV_MIN <= v.fov <= FOV_MAX
}

/// Where a camera looks and how wide it sees.
#[derive(Clone, Copy, Debug, PartialEq, Eq)]
pub struct Orientation {
    yaw: i64,
    pitch: i64,
    fov: i64,
}

impl View for Orientation {
    type V = OrientationView;

    closed spec fn view(&self) -> OrientationView {
        OrientationView { yaw: self.yaw as int, pitch: self.pitch as int, fov: self.fov as int }
    }
}

/// `x` held within `lo..=hi`.
fn clamp_units(x: i64, lo: i64, hi: i64) -> (r: i64)
    requires
        lo <= hi,
    ensures
        r == clamp(x as int, lo as int, hi as int),
{
    if x < lo {
        lo
    } else if x > hi {
        hi
    } else {
        x
    }
}

impl Orientation {
    #[verifier::type_invariant]
    spec fn inv(&self) -> bool {
        angles_in_range(self@)
    }

    /// An orientation with the given angles, in angle units: yaw as given,
    /// pitch and field of view clamped to their bounds.
    pub fn new(yaw: i32, pitch: i32, fov: i32) -> (o: Orientation)
        ensures
            o@.yaw == yaw as int,
            o@.pitch == clamp(pitch as int, -PITCH_LIMIT as int, PITCH_LIMIT as int),
            o@.fov == clamp(fov as int, FOV_MIN as int, FOV_MAX as int),
            angles_in_range(o@),
    {
        Orientation {
            yaw: yaw as i64,
            pitch: clamp_units(pitch as i64, -PITCH_LIMIT, PITCH_LIMIT),
            fov: clamp_units(fov as i64, FOV_MIN, FOV_MAX),
        }
    }

    /// The yaw, in angle units.
    pub fn yaw(&self) -> (r: i64)
        ensures
            r == self@.yaw,
    {
        self.yaw
    }

    /// The pitch, in angle units, within the limit on either side.
    pub fn pitch(&self) -> (r: i64)
        ensures
            r == self@.pitch,
            -PITCH_LIMIT <= r <= PITCH_LIMIT,
    {
        proof {
            use_type_invariant(self);
        }
        self.pitch
    }

    /// The field of view, in angle units, within its bounds.
    pub fn fov(&self) -> (r: i64)
        ensures
            r == self@.fov,
            FOV_MIN <= r <= FOV_MAX,
    {
        proof {
            use_type_invariant(self);
        }
        self.fov
    }

    /// Turns by `d_yaw` and tilts by `d_pitch`: `d_yaw` is added to the yaw,
    /// `d_pitch` to the pitch, which is then clamped.
    pub fn look_around(&mut self, d_yaw: i32, d_pitch: i32)
        requires
            i64::MIN <= old(self)@.yaw + d_yaw <= i64::MAX,
        ensures
            final(self)@ == look_step(old(self)@, d_yaw as int, d_pitch as int),
    {
        proof {
            use_type_invariant(&*self);
        }
        let yaw = self.yaw + d_yaw as i64;
        let pitch = clamp_units(self.pitch + d_pitch as i64, -PITCH_LIMIT, PITCH_LIMIT);
        self.yaw = yaw;
        self.pitch = pitch;
    }

    /// Widens the field of view by `d_fov` (narrows it when negative), then
    /// clamps it to its bounds.
    pub fn zoom(&mut self, d_fov: i32)
        ensures
            final(self)@ == zoom_step(old(self)@, d_fov as int),
    {
        proof {
            use_type_invariant(&*self);
        }
        self.fov = clamp_units(self.fov + d_fov as i64, FOV_MIN, FOV_MAX);
    }
}

/// The orientation after one look command.
pub open spec fn look_step(v: OrientationView, d_yaw: int, d_pitch: int) -> OrientationView {
    OrientationView {
        yaw: v.yaw + d_yaw,
        pitch: clamp(v.pitch + d_pitch, -PITCH_LIMIT as int, PITCH_LIMIT as int),
        fov: v.fov,
    }
}

/// The orientation after one zoom command.
pub open spec fn zoom_step(v: OrientationView, d_fov: int) -> OrientationView {
    OrientationView { fov: clamp(v.fov + d_fov, FOV_MIN as int, FOV_MAX as int), ..v }
}

/// The orientation after the look commands `deltas` (yaw, pitch), in order.
pub open spec fn after_looks(v: OrientationView, deltas: Seq<(int, int)>) -> OrientationView
    decreases deltas.len(),
{
    if deltas.len() == 0 {
        v
    } else {
        look_step(after_looks(v, deltas.drop_last()), deltas.last().0, deltas.last().1)
    }
}

/// The orientation after the zoom commands `deltas`, in order.
pub open spec fn after_zooms(v: OrientationView, deltas: Seq<int>) -> OrientationView
    decreases deltas.len(),
{
    if deltas.len() == 0 {
        v
    } else {
        zoom_step(after_zooms(v, deltas.drop_last()), deltas.last())
    }
}

/// However many look commands follow each other, the pitch stays within the
/// limit on either side of the horizon, and the whole orientation in range.
pub proof fn lemma_looks_keep_pitch_in_range(v: OrientationView, deltas: Seq<(int, int)>)
    requires
        angles_in_range(v),
    ensures
        angles_in_range(after_looks(v, deltas)),
        -PITCH_LIMIT <= after_looks(v, deltas).pitch <= PITCH_LIMIT,
    decreases deltas.len(),
{
    if deltas.len() > 0 {
        lemma_looks_keep_pitch_in_range(v, deltas.drop_last());
    }
}

/// However many zoom commands follow each other, the field of view stays
/// within its bounds, and the whole orientation in range.
pub proof fn lemma_zooms_keep_fov_in_range(v: OrientationView, deltas: Seq<int>)
    requires
        angles_in_range(v),
    ensures
        angles_in_range(after_zooms(v, deltas)),
        FOV_MIN <= after_zooms(v, deltas).fov <= FOV_MAX,
    decreases deltas.len(),
{
    if deltas.len() > 0 {
        lemma_zooms_keep_fov_in_range(v, deltas.drop_last());
    }
}

} // verus!
