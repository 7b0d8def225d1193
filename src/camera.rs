//! The three drivers of the orbit camera: manual, oscillating and sequenced.
use vstd::prelude::*;
use crate::components::OrbitCamera;
use crate::fixed::{clamp_int, sat64, saturate};
use crate::resource::{
    is_sign, LiveCameraPanNumber, LiveCaptureOperationSettings, OperationSettings,
};

verus! {

/// Pitch never leaves `[-PITCH_LIMIT, PITCH_LIMIT]` under manual control
/// (one radian), which keeps the camera's up vector from flipping.
pub const PITCH_LIMIT: i64 = 1_000_000;

/// Yaw step of the oscillating driver per tick, in microradians.
pub const YAW_SENSITIVITY: i64 = 4_000;

/// Pitch step of the oscillating driver per tick, in microradians.
pub const PITCH_SENSITIVITY: i64 = 2_000;

/// Radius step of the oscillating driver per tick.
pub const ZOOM_SENSITIVITY: i64 = 2_000;

/// Pointer input of one tick, already decoded: button edges of the primary
/// button, motion deltas in pixels and scroll deltas in lines.
#[derive(Clone, Debug)]
pub struct PointerInput {
    pub just_pressed: bool,
    pub just_released: bool,
    pub motion: Vec<(i32, i32)>,
    pub scroll: Vec<i32>,
}

/// `c` moved by the given yaw, pitch and radius deltas: pitch is held to
/// `[-PITCH_LIMIT, PITCH_LIMIT]`, yaw and radius only to the range of `i64`.
pub open spec fn delta_spec(c: OrbitCamera, d_yaw: int, d_pitch: int, d_radius: int) -> OrbitCamera {
    OrbitCamera {
        yaw: sat64(c.yaw + d_yaw) as i64,
        pitch: clamp_int(c.pitch + d_pitch, -PITCH_LIMIT as int, PITCH_LIMIT as int) as i64,
        radius: sat64(c.radius + d_radius) as i64,
        ..c
    }
}

/// `c` after the pointer motions `m`, in order, at `sensitivity` per pixel.
pub open spec fn drag_spec(c: OrbitCamera, m: Seq<(i32, i32)>, sensitivity: int) -> OrbitCamera
    decreases m.len(),
{
    if m.len() == 0 {
        c
    } else {
        let prev = drag_spec(c, m.drop_last(), sensitivity);
        delta_spec(prev, -(m.last().0 * sensitivity), m.last().1 * sensitivity, 0)
    }
}

/// `c` after the scroll deltas `s`, in order, at `sensitivity` per line.
pub open spec fn scroll_spec(c: OrbitCamera, s: Seq<i32>, sensitivity: int) -> OrbitCamera
    decreases s.len(),
{
    if s.len() == 0 {
        c
    } else {
        let prev = scroll_spec(c, s.drop_last(), sensitivity);
        OrbitCamera { radius: sat64(prev.radius - s.last() * sensitivity) as i64, ..prev }
    }
}

/// Whether the camera is being dragged after this tick's button edges.
pub open spec fn dragging_after(was: bool, input: PointerInput) -> bool {
    if input.just_released {
        false
    } else if input.just_pressed {
        true
    } else {
        was
    }
}

/// The manual driver on one tick.
pub open spec fn manual_spec(c: OrbitCamera, input: PointerInput, s: OperationSettings) -> OrbitCamera {
    let d = OrbitCamera { is_dragging: dragging_after(c.is_dragging, input), ..c };
    let moved = if d.is_dragging {
        drag_spec(d, input.motion@, s.mouse_sensitivity as int)
    } else {
        d
    };
    scroll_spec(moved, input.scroll@, s.zoom_sensitivity as int)
}

impl OrbitCamera {
    /// Moves the camera by the given deltas: pitch is held to one radian
    /// either way, yaw and radius are left unbounded (but for the range of
    /// `i64`, where they stop).
    pub fn apply_delta(&mut self, d_yaw: i128, d_pitch: i128, d_radius: i128)
        requires
            i128::MIN <= old(self).yaw + d_yaw <= i128::MAX,
            i128::MIN <= old(self).pitch + d_pitch <= i128::MAX,
            i128::MIN <= old(self).radius + d_radius <= i128::MAX,
        ensures
            *final(self) == delta_spec(*old(self), d_yaw as int, d_pitch as int, d_radius as int),
    {
        self.yaw = saturate(self.yaw as i128 + d_yaw);
        let p: i128 = self.pitch as i128 + d_pitch;
        self.pitch = if p < -PITCH_LIMIT as i128 {
            -PITCH_LIMIT
        } else if p > PITCH_LIMIT as i128 {
            PITCH_LIMIT
        } else {
            p as i64
        };
        self.radius = saturate(self.radius as i128 + d_radius);
    }
}

/// The manual driver: the primary button's press starts a drag and its
/// release ends it; while dragging, each motion `(dx, dy)` turns the camera
/// by `-dx` and `dy` times the mouse sensitivity (pitch held to one radian);
/// each scroll `y` moves it `y` times the zoom sensitivity closer.
pub fn interactive_orbit_camera(
    orbit: &mut OrbitCamera,
    input: &PointerInput,
    settings: &OperationSettings,
)
    ensures
        *final(orbit) == manual_spec(*old(orbit), *input, *settings),
{
    if input.just_pressed {
        orbit.is_dragging = true;
    }
    if input.just_released {
        orbit.is_dragging = false;
    }
    let ghost start = *orbit;
    if orbit.is_dragging {
        let ms: i128 = settings.mouse_sensitivity as i128;
        let mut i: usize = 0;
        while i < input.motion.len()
            invariant
                i <= input.motion@.len(),
                ms == settings.mouse_sensitivity,
                -0x8000_0000_0000_0000 <= ms < 0x8000_0000_0000_0000,
                *orbit == drag_spec(start, input.motion@.subrange(0, i as int), ms as int),
            decreases input.motion@.len() - i,
        {
            let (dx, dy) = input.motion[i];
            assert(-0x1_0000_0000_0000_0000_0000_0000 <= dx * ms <= 0x1_0000_0000_0000_0000_0000_0000)
                by (nonlinear_arith)
                requires
                    -0x8000_0000 <= dx < 0x8000_0000,
                    -0x8000_0000_0000_0000 <= ms <= 0x8000_0000_0000_0000,
            ;
            assert(-0x1_0000_0000_0000_0000_0000_0000 <= dy * ms <= 0x1_0000_0000_0000_0000_0000_0000)
                by (nonlinear_arith)
                requires
                    -0x8000_0000 <= dy < 0x8000_0000,
                    -0x8000_0000_0000_0000 <= ms <= 0x8000_0000_0000_0000,
            ;
            orbit.apply_delta(-(dx as i128 * ms), dy as i128 * ms, 0);
            assert(input.motion@.subrange(0, i + 1).drop_last() =~= input.motion@.subrange(0, i as int));
            i = i + 1;
        }
        assert(input.motion@.subrange(0, i as int) =~= input.motion@);
    }
    let ghost moved = *orbit;
    let zs: i128 = settings.zoom_sensitivity as i128;
    let mut j: usize = 0;
    while j < input.scroll.len()
        invariant
            j <= input.scroll@.len(),
            zs == settings.zoom_sensitivity,
            *orbit == scroll_spec(moved, input.scroll@.subrange(0, j as int), zs as int),
        decreases input.scroll@.len() - j,
    {
        let y = input.scroll[j];
        assert(-0x1_0000_0000_0000_0000_0000_0000 <= y * zs <= 0x1_0000_0000_0000_0000_0000_0000)
            by (nonlinear_arith)
            requires
                -0x8000_0000 <= y < 0x8000_0000,
                -0x8000_0000_0000_0000 <= zs < 0x8000_0000_0000_0000,
        ;
        orbit.radius = saturate(orbit.radius as i128 - y as i128 * zs);
        assert(input.scroll@.subrange(0, j + 1).drop_last() =~= input.scroll@.subrange(0, j as int));
        j = j + 1;
    }
    assert(input.scroll@.subrange(0, j as int) =~= input.scroll@);
}

/// Manual-driver law: after any tick in which the pointer moved while
/// dragging, pitch lies in `[-PITCH_LIMIT, PITCH_LIMIT]`, whatever the size
/// or sign of the motions; a tick that starts in that range stays in it; and
/// motions that only turn the yaw leave an in-range pitch as it was.
pub proof fn lemma_manual_pitch_bounded(
    c: OrbitCamera,
    m: Seq<(i32, i32)>,
    s: Seq<i32>,
    sensitivity: int,
    zoom: int,
)
    ensures
        m.len() > 0 ==> -PITCH_LIMIT <= drag_spec(c, m, sensitivity).pitch <= PITCH_LIMIT,
        -PITCH_LIMIT <= c.pitch <= PITCH_LIMIT ==> -PITCH_LIMIT <= drag_spec(
            c,
            m,
            sensitivity,
        ).pitch <= PITCH_LIMIT,
        -PITCH_LIMIT <= c.pitch <= PITCH_LIMIT && (forall|i: int|
            0 <= i < m.len() ==> (#[trigger] m[i]).1 == 0) ==> drag_spec(c, m, sensitivity).pitch
            == c.pitch,
        scroll_spec(c, s, zoom).pitch == c.pitch,
    decreases m.len() + s.len(),
{
    if m.len() > 0 {
        lemma_manual_pitch_bounded(c, m.drop_last(), s, sensitivity, zoom);
        let prev = drag_spec(c, m.drop_last(), sensitivity);
        crate::fixed::lemma_clamp_idempotent(
            prev.pitch + m.last().1 * sensitivity,
            -PITCH_LIMIT as int,
            PITCH_LIMIT as int,
        );
        if forall|i: int| 0 <= i < m.len() ==> (#[trigger] m[i]).1 == 0 {
            assert(m[m.len() - 1].1 == 0);
            assert forall|i: int| 0 <= i < m.drop_last().len() implies (#[trigger] m.drop_last()[i]).1
                == 0 by {
                assert(m.drop_last()[i] == m[i]);
            }
        }
    } else if s.len() > 0 {
        lemma_manual_pitch_bounded(c, m, s.drop_last(), sensitivity, zoom);
    }
}

/// A whole tick of the manual driver keeps an in-range pitch in range,
/// whatever pointer input it gets.
pub proof fn lemma_manual_tick_pitch(c: OrbitCamera, input: PointerInput, s: OperationSettings)
    requires
        -PITCH_LIMIT <= c.pitch <= PITCH_LIMIT,
    ensures
        -PITCH_LIMIT <= manual_spec(c, input, s).pitch <= PITCH_LIMIT,
{
    let d = OrbitCamera { is_dragging: dragging_after(c.is_dragging, input), ..c };
    lemma_manual_pitch_bounded(
        d,
        input.motion@,
        input.scroll@,
        s.mouse_sensitivity as int,
        s.zoom_sensitivity as int,
    );
    let moved = if d.is_dragging {
        drag_spec(d, input.motion@, s.mouse_sensitivity as int)
    } else {
        d
    };
    lemma_manual_pitch_bounded(moved, Seq::empty(), input.scroll@, 0, s.zoom_sensitivity as int);
}

/// One axis of the oscillating driver: the value moves by `rate * speed`;
/// reaching `hi` or `lo` holds it at that bound and flips the rate's sign.
pub open spec fn pan_axis(v: int, rate: int, speed: int, lo: int, hi: int) -> (int, int) {
    let n = sat64(v + rate * speed);
    if n >= hi {
        (hi, -rate)
    } else if n <= lo {
        (lo, -rate)
    } else {
        (n, rate)
    }
}

fn pan_axis_exec(v: i64, rate: i8, speed: i64, lo: i64, hi: i64) -> (r: (i64, i8))
    requires
        is_sign(rate as int),
    ensures
        r.0 == pan_axis(v as int, rate as int, speed as int, lo as int, hi as int).0,
        r.1 == pan_axis(v as int, rate as int, speed as int, lo as int, hi as int).1,
        is_sign(r.1 as int),
{
    let step: i128 = if rate > 0 {
        speed as i128
    } else {
        -(speed as i128)
    };
    assert(step == rate * speed) by (nonlinear_arith)
        requires
            rate == 1 || rate == -1,
            rate > 0 ==> step == speed,
            rate <= 0 ==> step == -speed,
    ;
    let n = saturate(v as i128 + step);
    if n >= hi {
        (hi, -rate)
    } else if n <= lo {
        (lo, -rate)
    } else {
        (n, rate)
    }
}

/// Upper bound of the radius under the oscillating driver.
pub open spec fn radius_max(settings: OperationSettings, radius_range: int) -> int {
    sat64(settings.radius_start_position + radius_range)
}

/// The camera and rates after one tick of the oscillating driver.
pub open spec fn oscillate_spec(
    c: OrbitCamera,
    pan: LiveCameraPanNumber,
    settings: OperationSettings,
    radius_range: int,
) -> (OrbitCamera, LiveCameraPanNumber) {
    let y = pan_axis(
        c.yaw as int,
        pan.yaw as int,
        YAW_SENSITIVITY as int,
        settings.yaw_min_value as int,
        settings.yaw_max_value as int,
    );
    let p = pan_axis(
        c.pitch as int,
        pan.pitch as int,
        PITCH_SENSITIVITY as int,
        settings.pitch_min_value as int,
        settings.pitch_max_value as int,
    );
    let r = pan_axis(
        c.radius as int,
        pan.radius as int,
        ZOOM_SENSITIVITY as int,
        settings.radius_start_position as int,
        radius_max(settings, radius_range),
    );
    (
        OrbitCamera { yaw: y.0 as i64, pitch: p.0 as i64, radius: r.0 as i64, ..c },
        LiveCameraPanNumber { yaw: y.1 as i8, pitch: p.1 as i8, radius: r.1 as i8 },
    )
}

/// The oscillating driver on one tick. Yaw and pitch move between their
/// configured bounds, the radius between the start position and that plus
/// `radius_range`, at fixed speeds in the direction of each axis' rate.
pub fn live_orbit_camera(
    orbit: &mut OrbitCamera,
    pan: &mut LiveCameraPanNumber,
    settings: &OperationSettings,
    radius_range: i64,
)
    requires
        old(pan).wf(),
    ensures
        final(pan).wf(),
        (*final(orbit), *final(pan)) == oscillate_spec(
            *old(orbit),
            *old(pan),
            *settings,
            radius_range as int,
        ),
        final(orbit).is_dragging == old(orbit).is_dragging,
        (final(orbit).yaw as int, final(pan).yaw as int) == pan_axis(
            old(orbit).yaw as int,
            old(pan).yaw as int,
            YAW_SENSITIVITY as int,
            settings.yaw_min_value as int,
            settings.yaw_max_value as int,
        ),
        (final(orbit).pitch as int, final(pan).pitch as int) == pan_axis(
            old(orbit).pitch as int,
            old(pan).pitch as int,
            PITCH_SENSITIVITY as int,
            settings.pitch_min_value as int,
            settings.pitch_max_value as int,
        ),
        (final(orbit).radius as int, final(pan).radius as int) == pan_axis(
            old(orbit).radius as int,
            old(pan).radius as int,
            ZOOM_SENSITIVITY as int,
            settings.radius_start_position as int,
            radius_max(*settings, radius_range as int),
        ),
{
    let (yaw, yaw_rate) = pan_axis_exec(
        orbit.yaw,
        pan.yaw,
        YAW_SENSITIVITY,
        settings.yaw_min_value,
        settings.yaw_max_value,
    );
    let (pitch, pitch_rate) = pan_axis_exec(
        orbit.pitch,
        pan.pitch,
        PITCH_SENSITIVITY,
        settings.pitch_min_value,
        settings.pitch_max_value,
    );
    let hi = crate::fixed::saturating_add(settings.radius_start_position, radius_range);
    let (radius, radius_rate) = pan_axis_exec(
        orbit.radius,
        pan.radius,
        ZOOM_SENSITIVITY,
        settings.radius_start_position,
        hi,
    );
    orbit.yaw = yaw;
    orbit.pitch = pitch;
    orbit.radius = radius;
    pan.yaw = yaw_rate;
    pan.pitch = pitch_rate;
    pan.radius = radius_rate;
}

/// Oscillation law, on one axis with `lo <= v <= hi`: the value stays in
/// `[lo, hi]` and moves at most one step; the rate's sign flips exactly when
/// the step reaches a bound; and after a flip at the upper bound, when the
/// range is wider than one step, the next tick moves one step back down
/// without flipping again.
pub proof fn lemma_oscillation(v: int, rate: int, speed: int, lo: int, hi: int)
    requires
        i64::MIN <= lo <= v <= hi <= i64::MAX,
        is_sign(rate),
        0 <= speed,
    ensures
        lo <= pan_axis(v, rate, speed, lo, hi).0 <= hi,
        -speed <= pan_axis(v, rate, speed, lo, hi).0 - v <= speed,
        is_sign(pan_axis(v, rate, speed, lo, hi).1),
        (pan_axis(v, rate, speed, lo, hi).1 == -rate) <==> (sat64(v + rate * speed) >= hi || sat64(
            v + rate * speed,
        ) <= lo),
        (pan_axis(v, rate, speed, lo, hi).1 == rate) <==> !(sat64(v + rate * speed) >= hi
            || sat64(v + rate * speed) <= lo),
        speed > 0 && hi - lo > speed && sat64(v + rate * speed) >= hi ==> {
            let next = pan_axis(hi, -rate, speed, lo, hi);
            &&& next.0 == hi - speed
            &&& next.1 == -rate
        },
{
    assert(rate * speed == speed || rate * speed == -speed) by (nonlinear_arith)
        requires
            rate == 1 || rate == -1,
    ;
    if speed > 0 && hi - lo > speed && sat64(v + rate * speed) >= hi {
        assert(rate == 1);
        assert(-rate * speed == -speed) by (nonlinear_arith)
            requires
                rate == 1,
        ;
    }
}

/// What one tick of the sequenced driver did: the pose it moved the camera
/// to, at which one capture is due, and whether the capture is finished.
#[derive(Clone, Copy, Debug, PartialEq, Eq)]
pub struct CaptureStep {
    pub pose: Option<(i64, i64, i64)>,
    pub finished: bool,
}

/// The sequenced driver on one tick: the camera jumps to the next planned
/// pose and a capture is due there; the capture is finished once the counter
/// reaches the total, or when no planned pose is left.
pub fn live_capture_camera(
    orbit: &mut OrbitCamera,
    progress: &mut LiveCaptureOperationSettings,
) -> (r: CaptureStep)
    ensures
        ({
            let before = *old(progress);
            let after = *final(progress);
            let k = before.live_capture_iteration_current_counter;
            let plan = before.live_capture_coordinate_list@;
            &&& after.live_capture_iteration == before.live_capture_iteration
            &&& after.live_capture_coordinate_list@ == plan
            &&& k < plan.len() ==> {
                &&& r.pose == Some(plan[k as int])
                &&& *final(orbit) == (OrbitCamera {
                    yaw: plan[k as int].0,
                    pitch: plan[k as int].1,
                    radius: plan[k as int].2,
                    ..*old(orbit)
                })
                &&& after.live_capture_iteration_current_counter == k + 1
                &&& r.finished == (k + 1 >= after.live_capture_iteration)
            }
            &&& k >= plan.len() ==> {
                &&& r.pose.is_none()
                &&& r.finished
                &&& *final(orbit) == *old(orbit)
                &&& after.live_capture_iteration_current_counter == k
            }
        }),
{
    let pose = progress.next_pose();
    match pose {
        Some(p) => {
            orbit.yaw = p.0;
            orbit.pitch = p.1;
            orbit.radius = p.2;
            CaptureStep { pose, finished: progress.is_complete() }
        },
        None => CaptureStep { pose: None, finished: true },
    }
}

} // verus!
