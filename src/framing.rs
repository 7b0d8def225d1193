//! Auto-framing: the camera distance at which a model fits the viewport.
use vstd::prelude::*;
use crate::fixed::{div_floor, sat64, saturate, SCALE};

verus! {

/// Tangent of half the fixed 45-degree vertical field of view, in millionths.
pub const TAN_HALF_VFOV: u128 = 414_214;

/// Aspect ratio assumed while no window reports its size.
pub const DEFAULT_WIDTH: u32 = 1280;

/// See [`DEFAULT_WIDTH`].
pub const DEFAULT_HEIGHT: u32 = 720;

/// Bounding box of one mesh in millionths of a unit (center height and half
/// extents) with its world scale in millionths; a negative scale mirrors the
/// mesh along that axis.
#[derive(Clone, Copy, Debug, PartialEq, Eq, Structural)]
pub struct MeshBounds {
    pub center_y: i64,
    pub half_x: u32,
    pub half_y: u32,
    pub half_z: u32,
    pub scale_x: i32,
    pub scale_y: i32,
    pub scale_z: i32,
}

/// What auto-framing decided for one model: the start radius of the camera,
/// how far the model is lowered, and the largest Z scale of its meshes (in
/// millionths), by which the configured radius range is multiplied.
#[derive(Clone, Copy, Debug, PartialEq, Eq, Structural)]
pub struct ModelFraming {
    pub radius: i64,
    pub vertical_offset: i64,
    pub zoom_scale: u32,
}

/// The largest `r` with `r * r <= n`.
pub open spec fn sqrt_floor(n: nat) -> nat
    decreases n,
{
    if n == 0 {
        0
    } else {
        let r = sqrt_floor((n - 1) as nat);
        if (r + 1) * (r + 1) <= n {
            r + 1
        } else {
            r
        }
    }
}

proof fn lemma_sqrt_floor(n: nat)
    ensures
        sqrt_floor(n) * sqrt_floor(n) <= n < (sqrt_floor(n) + 1) * (sqrt_floor(n) + 1),
    decreases n,
{
    if n > 0 {
        lemma_sqrt_floor((n - 1) as nat);
        let r = sqrt_floor((n - 1) as nat);
        let s = sqrt_floor(n);
        if (r + 1) * (r + 1) <= n {
            assert(s == r + 1);
            assert(s * s <= n);
            assert(n < (s + 1) * (s + 1)) by (nonlinear_arith)
                requires
                    n - 1 < (r + 1) * (r + 1),
                    s == r + 1,
                    r >= 0,
            ;
        } else {
            assert(s == r);
            assert(s * s <= n);
            assert(n < (s + 1) * (s + 1));
        }
    } else {
        assert(sqrt_floor(0) == 0);
        assert((sqrt_floor(n) + 1) * (sqrt_floor(n) + 1) == 1);
    }
}

proof fn lemma_sqrt_unique(r: nat, n: nat)
    requires
        r * r <= n < (r + 1) * (r + 1),
    ensures
        r == sqrt_floor(n),
{
    lemma_sqrt_floor(n);
    let s = sqrt_floor(n);
    if r < s {
        assert((r + 1) * (r + 1) <= s * s) by (nonlinear_arith)
            requires
                r + 1 <= s,
        ;
    } else if r > s {
        assert((s + 1) * (s + 1) <= r * r) by (nonlinear_arith)
            requires
                s + 1 <= r,
        ;
    }
}

/// Square root rounded down.
pub fn isqrt(n: u128) -> (r: u128)
    ensures
        r == sqrt_floor(n as nat),
{
    let mut lo: u128 = 0;
    let mut hi: u128 = 0x1_0000_0000_0000_0000;
    assert(n < hi * hi) by (nonlinear_arith)
        requires
            hi == 0x1_0000_0000_0000_0000,
            n <= u128::MAX,
    ;
    while hi - lo > 1
        invariant
            lo < hi <= 0x1_0000_0000_0000_0000,
            lo * lo <= n < hi * hi,
        decreases hi - lo,
    {
        let mid: u128 = lo + (hi - lo) / 2;
        assert(mid * mid < 0x1_0000_0000_0000_0000 * 0x1_0000_0000_0000_0000) by (nonlinear_arith)
            requires
                mid < 0x1_0000_0000_0000_0000,
        ;
        if mid * mid <= n {
            lo = mid;
        } else {
            hi = mid;
        }
    }
    proof {
        lemma_sqrt_unique(lo as nat, n as nat);
    }
    lo
}

/// One side of a box after scaling: twice the half extent times the scale
/// (negative for a mirroring scale), rounded down.
pub open spec fn scaled_size(half: int, scale: int) -> int {
    2 * half * scale / SCALE as int
}

/// Distance at which one mesh fits the view: half its diagonal over the
/// tangent of half the horizontal field of view (the vertical one widened
/// by `width / height`), plus its depth, with a margin of one half.
pub open spec fn mesh_distance(m: MeshBounds, width: int, height: int) -> int {
    let sx = scaled_size(m.half_x as int, m.scale_x as int);
    let sy = scaled_size(m.half_y as int, m.scale_y as int);
    let sz = scaled_size(m.half_z as int, m.scale_z as int);
    let diag = sqrt_floor((sx * sx + sy * sy + sz * sz) as nat);
    3 * (diag * height * SCALE as int / (2 * TAN_HALF_VFOV as int * width) + sz) / 2
}

/// How far above the pivot one mesh's center lies after scaling (never
/// below zero).
pub open spec fn mesh_lift(m: MeshBounds) -> int {
    if m.center_y * m.scale_y > 0 {
        m.center_y * m.scale_y / SCALE as int
    } else {
        0
    }
}

/// Largest distance, lift and Z scale over `meshes`, each starting at zero.
pub open spec fn frame_spec(meshes: Seq<MeshBounds>, width: int, height: int) -> (int, int, int)
    decreases meshes.len(),
{
    if meshes.len() == 0 {
        (0, 0, 0)
    } else {
        let p = frame_spec(meshes.drop_last(), width, height);
        let m = meshes.last();
        (
            vstd::math::max(p.0, mesh_distance(m, width, height)),
            vstd::math::max(p.1, mesh_lift(m)),
            vstd::math::max(p.2, m.scale_z as int),
        )
    }
}

fn scaled_size_exec(half: u32, scale: i32) -> (r: i128)
    ensures
        r == scaled_size(half as int, scale as int),
        -0x2000_0000_0000 < r < 0x2000_0000_0000,
{
    assert(-0x1_0000_0000_0000_0000 <= 2 * half * scale <= 0x1_0000_0000_0000_0000)
        by (nonlinear_arith)
        requires
            0 <= half < 0x1_0000_0000,
            -0x8000_0000 <= scale < 0x8000_0000,
    ;
    div_floor(2 * half as i128 * scale as i128, SCALE as i128)
}

fn mesh_distance_exec(m: &MeshBounds, width: u32, height: u32) -> (r: i128)
    requires
        width > 0,
    ensures
        r == mesh_distance(*m, width as int, height as int),
        r < 0x10_0000_0000_0000_0000_0000_0000,
{
    let k: i128 = SCALE as i128;
    let sx = scaled_size_exec(m.half_x, m.scale_x);
    let sy = scaled_size_exec(m.half_y, m.scale_y);
    let sz = scaled_size_exec(m.half_z, m.scale_z);
    assert(0 <= sx * sx < 0x400_0000_0000_0000_0000_0000) by (nonlinear_arith)
        requires
            -0x2000_0000_0000 < sx < 0x2000_0000_0000,
    ;
    assert(0 <= sy * sy < 0x400_0000_0000_0000_0000_0000) by (nonlinear_arith)
        requires
            -0x2000_0000_0000 < sy < 0x2000_0000_0000,
    ;
    assert(0 <= sz * sz < 0x400_0000_0000_0000_0000_0000) by (nonlinear_arith)
        requires
            -0x2000_0000_0000 < sz < 0x2000_0000_0000,
    ;
    let n: u128 = (sx * sx + sy * sy + sz * sz) as u128;
    let diag = isqrt(n);
    proof {
        lemma_sqrt_floor(n as nat);
        if diag >= 0x4000_0000_0000 {
            assert(diag * diag >= 0x4000_0000_0000 * 0x4000_0000_0000) by (nonlinear_arith)
                requires
                    diag >= 0x4000_0000_0000,
            ;
        }
        assert(diag * height * k < 0x4000_0000_0000 * 0x1_0000_0000 * 0x10_0000) by (nonlinear_arith)
            requires
                diag < 0x4000_0000_0000,
                height < 0x1_0000_0000,
                k == 1_000_000,
        ;
        assert(2 * TAN_HALF_VFOV * width < 0x1_0000_0000 * 0x10_0000) by (nonlinear_arith)
            requires
                width < 0x1_0000_0000,
        ;
        assert(2 * TAN_HALF_VFOV * width > 0) by (nonlinear_arith)
            requires
                width > 0,
        ;
    }
    let d: i128 = diag as i128;
    let q: i128 = d * height as i128 * k / (2 * TAN_HALF_VFOV as i128 * width as i128);
    proof {
        assert(0 <= q <= d * height * k) by (nonlinear_arith)
            requires
                q == d * height * k / (2 * TAN_HALF_VFOV * width),
                2 * TAN_HALF_VFOV * width > 0,
                d * height * k >= 0,
        ;
    }
    div_floor(3 * (q + sz), 2)
}

fn mesh_lift_exec(m: &MeshBounds) -> (r: i128)
    ensures
        r == mesh_lift(*m),
{
    assert(-0x1_0000_0000_0000_0000_0000_0000 <= m.center_y * m.scale_y
        <= 0x1_0000_0000_0000_0000_0000_0000) by (nonlinear_arith)
        requires
            -0x8000_0000_0000_0000 <= m.center_y < 0x8000_0000_0000_0000,
            -0x8000_0000 <= m.scale_y < 0x8000_0000,
    ;
    let p: i128 = m.center_y as i128 * m.scale_y as i128;
    if p > 0 {
        p / SCALE as i128
    } else {
        0
    }
}

/// Auto-framing of a model whose meshes are `meshes`, in a viewport of
/// `width` by `height`: the radius is the largest fitting distance over the
/// meshes, the model is lowered by the highest scaled mesh center above the
/// pivot, and the zoom scale is the largest Z scale (each starting from
/// zero). Values beyond the range of `i64` stop at its bounds.
pub fn frame_model(meshes: &Vec<MeshBounds>, width: u32, height: u32) -> (r: ModelFraming)
    requires
        width > 0,
        height > 0,
    ensures
        r.radius == sat64(frame_spec(meshes@, width as int, height as int).0),
        r.vertical_offset == sat64(frame_spec(meshes@, width as int, height as int).1),
        r.zoom_scale == frame_spec(meshes@, width as int, height as int).2,
{
    let mut distance: i128 = 0;
    let mut lift: i128 = 0;
    let mut zoom: u32 = 0;
    let mut i: usize = 0;
    while i < meshes.len()
        invariant
            i <= meshes@.len(),
            width > 0,
            frame_spec(meshes@.subrange(0, i as int), width as int, height as int) == (
                distance as int,
                lift as int,
                zoom as int,
            ),
            0 <= lift < 0x1_0000_0000_0000_0000_0000_0000,
            0 <= distance < 0x10_0000_0000_0000_0000_0000_0000,
        decreases meshes@.len() - i,
    {
        let m = &meshes[i];
        let d = mesh_distance_exec(m, width, height);
        let l = mesh_lift_exec(m);
        proof {
            assert(l < 0x1_0000_0000_0000_0000_0000_0000) by (nonlinear_arith)
                requires
                    l == mesh_lift(*m),
                    m.center_y < 0x8000_0000_0000_0000,
                    m.scale_y < 0x1_0000_0000,
            ;
        }
        if d > distance {
            distance = d;
        }
        if l > lift {
            lift = l;
        }
        if m.scale_z as i64 > zoom as i64 {
            zoom = m.scale_z as u32;
        }
        assert(meshes@.subrange(0, i + 1).drop_last() =~= meshes@.subrange(0, i as int));
        i = i + 1;
    }
    assert(meshes@.subrange(0, i as int) =~= meshes@);
    ModelFraming { radius: saturate(distance), vertical_offset: saturate(lift), zoom_scale: zoom }
}

} // verus!
