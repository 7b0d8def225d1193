//! Low-discrepancy (Halton) sampling of capture poses.
use vstd::prelude::*;
use vstd::arithmetic::div_mod::{
    lemma_fundamental_div_mod, lemma_fundamental_div_mod_converse_div,
};

verus! {

/// Largest number of samples one plan may hold: indices are 32-bit.
pub const MAX_SAMPLES: usize = 0xffff_ffff;

/// Dividing a positive number by a base of at least two makes it smaller.
proof fn lemma_div_shrinks(i: nat, b: nat)
    requires
        b >= 2,
        i > 0,
    ensures
        i / b < i,
{
    lemma_fundamental_div_mod(i as int, b as int);
    assert(i / b < i) by (nonlinear_arith)
        requires
            i > 0,
            b >= 2,
            i == b * (i / b) + i % b,
            0 <= i % b < b,
    ;
}

#[via_fn]
proof fn halton_den_decreases(i: nat, b: nat) {
    if i > 0 {
        lemma_div_shrinks(i, b);
    }
}

#[via_fn]
proof fn halton_num_decreases(i: nat, b: nat) {
    if i > 0 {
        lemma_div_shrinks(i, b);
    }
}

/// Denominator of the `i`-th Halton term in base `b`: `b` to the number of
/// base-`b` digits of `i`.
pub open spec fn halton_den(i: nat, b: nat) -> nat
    decreases i,
    when b >= 2
    via halton_den_decreases
{
    if i == 0 {
        1
    } else {
        b * halton_den(i / b, b)
    }
}

/// Numerator of the `i`-th Halton term in base `b`: the digits of `i`
/// mirrored about the radix point, so that the term is
/// `halton_num(i, b) / halton_den(i, b)`.
pub open spec fn halton_num(i: nat, b: nat) -> nat
    decreases i,
    when b >= 2
    via halton_num_decreases
{
    if i == 0 {
        0
    } else {
        (i % b) * halton_den(i / b, b) + halton_num(i / b, b)
    }
}

/// The term lies in `[0, 1)`, and its denominator is at most `b * i`.
pub proof fn lemma_halton_bounds(i: nat, b: nat)
    requires
        b >= 2,
    ensures
        halton_den(i, b) >= 1,
        halton_num(i, b) < halton_den(i, b),
        i > 0 ==> halton_den(i, b) <= b * i,
    decreases i,
{
    if i > 0 {
        lemma_div_shrinks(i, b);
        lemma_halton_bounds(i / b, b);
        let q = i / b;
        let d = halton_den(q, b);
        let n = halton_num(q, b);
        lemma_fundamental_div_mod(i as int, b as int);
        let m = i % b;
        assert(m * d + n < b * d) by (nonlinear_arith)
            requires
                0 <= m,
                m + 1 <= b,
                n < d,
        ;
        assert(b * d >= 1) by (nonlinear_arith)
            requires
                b >= 2,
                d >= 1,
        ;
        if q > 0 {
            assert(b * d <= b * i) by (nonlinear_arith)
                requires
                    d <= b * q,
                    i == b * q + i % b,
                    i % b >= 0,
                    b >= 2,
            ;
        } else {
            assert(b * d <= b * i) by (nonlinear_arith)
                requires
                    d == 1,
                    i >= 1,
                    b >= 2,
            ;
        }
    }
}

/// The `index`-th term of the Halton sequence in base `base`, as an exact
/// fraction `(numerator, denominator)`.
pub fn halton(index: u32, base: u32) -> (r: (u64, u64))
    requires
        base >= 2,
    ensures
        r.0 == halton_num(index as nat, base as nat),
        r.1 == halton_den(index as nat, base as nat),
        r.0 < r.1,
{
    let ghost b = base as nat;
    proof {
        lemma_halton_bounds(index as nat, b);
        if index > 0 {
            assert(b * index <= u32::MAX * u32::MAX) by (nonlinear_arith)
                requires
                    b <= u32::MAX,
                    index <= u32::MAX,
            ;
        }
    }
    let mut num: u64 = 0;
    let mut den: u64 = 1;
    let mut i: u32 = index;
    while i > 0
        invariant
            b == base,
            base >= 2,
            num * halton_den(i as nat, b) + halton_num(i as nat, b) == halton_num(index as nat, b),
            den * halton_den(i as nat, b) == halton_den(index as nat, b),
            halton_den(index as nat, b) <= u64::MAX,
            num < den,
        decreases i,
    {
        let ghost q = (i / base) as nat;
        proof {
            lemma_div_shrinks(i as nat, b);
            lemma_halton_bounds(q, b);
            let dq = halton_den(q, b);
            let nq = halton_num(q, b);
            assert(halton_den(i as nat, b) == b * dq);
            assert(halton_num(i as nat, b) == (i % base) * dq + nq);
            assert(den * b <= halton_den(index as nat, b)) by (nonlinear_arith)
                requires
                    den * (b * dq) == halton_den(index as nat, b),
                    dq >= 1,
                    den >= 1,
            ;
            assert((num * b + i % base) * dq + nq == halton_num(index as nat, b))
                by (nonlinear_arith)
                requires
                    num * (b * dq) + ((i % base) * dq + nq) == halton_num(index as nat, b),
            ;
            assert((den * b) * dq == halton_den(index as nat, b)) by (nonlinear_arith)
                requires
                    den * (b * dq) == halton_den(index as nat, b),
            ;
            assert(num * b + i % base < den * b) by (nonlinear_arith)
                requires
                    num < den,
                    i % base < b,
                    b == base,
            ;
        }
        num = num * base as u64 + (i % base) as u64;
        den = den * base as u64;
        i = i / base;
    }
    assert(halton_den(0, b) == 1 && halton_num(0, b) == 0);
    assert(num * 1 == num && den * 1 == den);
    (num, den)
}

/// The point `num / den` of the way from `lo` to `hi`, rounded down.
pub open spec fn lerp(lo: int, hi: int, num: int, den: int) -> int {
    lo + (hi - lo) * num / den
}

/// Coordinate on the axis `range` for the `k`-th Halton term in `base`.
pub open spec fn halton_coord(k: nat, range: (i64, i64), base: nat) -> i64 {
    lerp(range.0 as int, range.1 as int, halton_num(k, base) as int, halton_den(k, base) as int) as i64
}

/// The `j`-th pose of a plan (counting from zero): bases 2, 3 and 5 on the
/// three axes, with the sequence entered at index 1.
pub open spec fn sample_point(j: nat, x: (i64, i64), y: (i64, i64), z: (i64, i64)) -> (
    i64,
    i64,
    i64,
) {
    (halton_coord(j + 1, x, 2), halton_coord(j + 1, y, 3), halton_coord(j + 1, z, 5))
}

/// The first `count` poses over the three axis ranges.
pub open spec fn sample_plan(count: nat, x: (i64, i64), y: (i64, i64), z: (i64, i64)) -> Seq<
    (i64, i64, i64),
> {
    Seq::new(count, |j: int| sample_point(j as nat, x, y, z))
}

/// `v` lies between the two ends of `range`, whichever way round they are.
pub open spec fn within(v: int, range: (i64, i64)) -> bool {
    if range.0 <= range.1 {
        range.0 <= v <= range.1
    } else {
        range.1 <= v <= range.0
    }
}

/// A fraction in `[0, 1)` of the way between two ends stays between them.
pub proof fn lemma_lerp_within(lo: int, hi: int, num: int, den: int)
    requires
        0 <= num < den,
    ensures
        lo <= hi ==> lo <= lerp(lo, hi, num, den) <= hi,
        hi < lo ==> hi <= lerp(lo, hi, num, den) <= lo,
{
    let s = hi - lo;
    let p = s * num;
    let q = p / den;
    let r = p % den;
    lemma_fundamental_div_mod(p, den);
    if s >= 0 {
        assert(0 <= q <= s) by (nonlinear_arith)
            requires
                p == s * num,
                p == den * q + r,
                0 <= r < den,
                0 <= num < den,
                s >= 0,
        ;
    } else {
        assert(s <= q <= 0) by (nonlinear_arith)
            requires
                p == s * num,
                p == den * q + r,
                0 <= r < den,
                0 <= num < den,
                s < 0,
        ;
    }
}

/// The Halton coordinate of index `k` in `base` lies on its axis.
pub proof fn lemma_halton_coord_within(k: nat, range: (i64, i64), base: nat)
    requires
        base >= 2,
    ensures
        within(halton_coord(k, range, base) as int, range),
        halton_coord(k, range, base) as int == lerp(
            range.0 as int,
            range.1 as int,
            halton_num(k, base) as int,
            halton_den(k, base) as int,
        ),
{
    lemma_halton_bounds(k, base);
    lemma_lerp_within(
        range.0 as int,
        range.1 as int,
        halton_num(k, base) as int,
        halton_den(k, base) as int,
    );
}

/// Coordinate at fraction `num / den` along `range`.
fn axis_value(range: (i64, i64), num: u64, den: u64) -> (r: i64)
    requires
        num < den,
        den <= 0x4000_0000_0000_0000,
    ensures
        r == lerp(range.0 as int, range.1 as int, num as int, den as int),
{
    let span: i128 = range.1 as i128 - range.0 as i128;
    assert(-0x1_0000_0000_0000_0000 * 0x4000_0000_0000_0000 <= span * num
        <= 0x1_0000_0000_0000_0000 * 0x4000_0000_0000_0000)
        by (nonlinear_arith)
        requires
            -0x1_0000_0000_0000_0000 < span < 0x1_0000_0000_0000_0000,
            0 <= num < 0x4000_0000_0000_0000,
    ;
    let q: i128 = crate::fixed::div_floor(span * num as i128, den as i128);
    proof {
        lemma_lerp_within(range.0 as int, range.1 as int, num as int, den as int);
    }
    (range.0 as i128 + q) as i64
}

/// The poses of a sequenced capture: `count` points, the `j`-th of which
/// takes the `(j + 1)`-th Halton term in base 2 for yaw (`x_range`), base 3
/// for pitch (`y_range`) and base 5 for radius (`z_range`). The plan depends
/// on its arguments alone, so equal arguments always give the same plan.
pub fn generate_points(
    count: usize,
    x_range: (i64, i64),
    y_range: (i64, i64),
    z_range: (i64, i64),
) -> (r: Vec<(i64, i64, i64)>)
    requires
        count <= MAX_SAMPLES,
    ensures
        r@ == sample_plan(count as nat, x_range, y_range, z_range),
{
    let mut points: Vec<(i64, i64, i64)> = Vec::new();
    let mut i: usize = 0;
    while i < count
        invariant
            i <= count <= MAX_SAMPLES,
            points@ =~= sample_plan(i as nat, x_range, y_range, z_range),
        decreases count - i,
    {
        let k: u32 = i as u32 + 1;
        let (nx, dx) = halton(k, 2);
        let (ny, dy) = halton(k, 3);
        let (nz, dz) = halton(k, 5);
        proof {
            lemma_halton_bounds(k as nat, 2);
            lemma_halton_bounds(k as nat, 3);
            lemma_halton_bounds(k as nat, 5);
            lemma_halton_coord_within(k as nat, x_range, 2);
            lemma_halton_coord_within(k as nat, y_range, 3);
            lemma_halton_coord_within(k as nat, z_range, 5);
        }
        let x = axis_value(x_range, nx, dx);
        let y = axis_value(y_range, ny, dy);
        let z = axis_value(z_range, nz, dz);
        points.push((x, y, z));
        i = i + 1;
    }
    points
}

/// Sampling law: a plan for `count` poses holds exactly `count` poses, each
/// coordinate between the ends of its axis range; its `j`-th pose depends on
/// `j` and the ranges alone, so a shorter plan is a prefix of a longer one.
pub proof fn lemma_sample_plan(
    count: nat,
    longer: nat,
    x_range: (i64, i64),
    y_range: (i64, i64),
    z_range: (i64, i64),
)
    requires
        count <= longer,
    ensures
        sample_plan(count, x_range, y_range, z_range).len() == count,
        forall|j: int|
            0 <= j < count ==> {
                let p = #[trigger] sample_plan(count, x_range, y_range, z_range)[j];
                &&& within(p.0 as int, x_range)
                &&& within(p.1 as int, y_range)
                &&& within(p.2 as int, z_range)
            },
        sample_plan(count, x_range, y_range, z_range) == sample_plan(
            longer,
            x_range,
            y_range,
            z_range,
        ).subrange(0, count as int),
{
    assert forall|j: int| 0 <= j < count implies {
        let p = #[trigger] sample_plan(count, x_range, y_range, z_range)[j];
        &&& within(p.0 as int, x_range)
        &&& within(p.1 as int, y_range)
        &&& within(p.2 as int, z_range)
    } by {
        lemma_halton_coord_within((j + 1) as nat, x_range, 2);
        lemma_halton_coord_within((j + 1) as nat, y_range, 3);
        lemma_halton_coord_within((j + 1) as nat, z_range, 5);
    }
    assert(sample_plan(count, x_range, y_range, z_range) =~= sample_plan(
        longer,
        x_range,
        y_range,
        z_range,
    ).subrange(0, count as int));
}

} // verus!
