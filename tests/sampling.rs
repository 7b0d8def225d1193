use mvc::sampling::{generate_points, halton, MAX_SAMPLES};

#[test]
fn halton_first_terms_are_exact_fractions() {
    assert_eq!(halton(0, 2), (0, 1));
    assert_eq!(halton(1, 2), (1, 2));
    assert_eq!(halton(2, 2), (1, 4));
    assert_eq!(halton(3, 2), (3, 4));
    assert_eq!(halton(8, 2), (1, 16));
    assert_eq!(halton(5, 3), (7, 9));
    assert_eq!(halton(9, 3), (1, 27));
    assert_eq!(halton(7, 5), (11, 25));
    assert_eq!(halton(10, 5), (2, 25));
}

#[test]
fn halton_largest_index_stays_below_one() {
    let (n, d) = halton(u32::MAX, 5);
    assert!(n < d);
    let (n2, d2) = halton(u32::MAX, 2);
    assert_eq!(d2, 1u64 << 32);
    assert_eq!(n2, d2 - 1);
}

#[test]
fn plan_has_requested_count_and_exact_points() {
    let plan = generate_points(3, (-750_000, 750_000), (-600_000, -200_000), (2_500_000, 4_500_000));
    assert_eq!(
        plan,
        vec![
            (0, -466_667, 2_900_000),
            (-375_000, -333_334, 3_300_000),
            (375_000, -555_556, 3_700_000),
        ]
    );
}

#[test]
fn plan_points_stay_within_ranges() {
    let x = (-750_000, 750_000);
    let y = (-600_000, -200_000);
    let z = (2_500_000, 4_500_000);
    let plan = generate_points(500, x, y, z);
    assert_eq!(plan.len(), 500);
    for p in &plan {
        assert!(x.0 <= p.0 && p.0 <= x.1);
        assert!(y.0 <= p.1 && p.1 <= y.1);
        assert!(z.0 <= p.2 && p.2 <= z.1);
    }
}

#[test]
fn plan_is_reproducible_and_prefix_stable() {
    let a = generate_points(40, (-1, 1_000_000), (0, 10), (5, 5));
    let b = generate_points(40, (-1, 1_000_000), (0, 10), (5, 5));
    assert_eq!(a, b);
    let shorter = generate_points(25, (-1, 1_000_000), (0, 10), (5, 5));
    assert_eq!(&a[..25], &shorter[..]);
}

#[test]
fn empty_plan_for_zero_count() {
    assert!(generate_points(0, (0, 1), (0, 1), (0, 1)).is_empty());
}

#[test]
fn reversed_range_rounds_toward_lower_value() {
    let plan = generate_points(1, (10, 0), (0, 0), (i64::MIN, i64::MAX));
    // 10 + (-10) / 2 on the first axis; a fifth of the full i64 range on the last.
    assert_eq!(plan[0].0, 5);
    assert_eq!(plan[0].1, 0);
    assert_eq!(plan[0].2, -5_534_023_222_112_865_485);
    let second = generate_points(2, (0, 0), (10, 0), (0, 0));
    // 10 + (-10) * 2 / 3, rounded down.
    assert_eq!(second[1].1, 3);
    assert_eq!(MAX_SAMPLES, u32::MAX as usize);
}
