use weights::FeeMultiplier;
use weights::Perbill;
use weights::BILLION;

fn p(percent: u32) -> Perbill {
    Perbill::from_parts(percent * 1_000_000_0)
}

#[test]
fn fee_multiplier_can_sum() {
    assert_eq!(
        FeeMultiplier::Positive(p(10), 1).sum(FeeMultiplier::Positive(p(10), 1)),
        FeeMultiplier::Positive(p(20), 2)
    );

    assert_eq!(
        FeeMultiplier::Positive(p(60), 0).sum(FeeMultiplier::Positive(p(60), 1)),
        FeeMultiplier::Positive(p(20), 2)
    );

    assert_eq!(
        FeeMultiplier::Positive(p(60), 0).sum(FeeMultiplier::Positive(p(60), 0)),
        FeeMultiplier::Positive(p(20), 1)
    );

    assert_eq!(
        FeeMultiplier::Positive(p(10), 0).sum(FeeMultiplier::Positive(p(10), 1)),
        FeeMultiplier::Positive(p(20), 1)
    );

    assert_eq!(
        FeeMultiplier::Positive(p(10), 0).sum(FeeMultiplier::Positive(p(10), 1)),
        FeeMultiplier::Positive(p(20), 1)
    );

    assert_eq!(
        FeeMultiplier::Positive(p(10), 0).sum(FeeMultiplier::Negative(p(10))),
        FeeMultiplier::Positive(p(0), 0)
    );

    // zero
    assert_eq!(
        FeeMultiplier::Positive(p(0), 0).sum(FeeMultiplier::Negative(p(10))),
        FeeMultiplier::Negative(p(10))
    );
    assert_eq!(
        FeeMultiplier::Negative(p(0)).sum(FeeMultiplier::Positive(p(10), 2)),
        FeeMultiplier::Positive(p(10), 2)
    );

    // asymmetric operation.
    assert_eq!(
        FeeMultiplier::Positive(p(10), 0).sum(FeeMultiplier::Negative(p(30))),
        FeeMultiplier::Negative(p(20))
    );
    assert_eq!(
        FeeMultiplier::Negative(p(30)).sum(FeeMultiplier::Positive(p(10), 0)),
        FeeMultiplier::Negative(p(20))
    );
}

#[test]
fn sum_is_commutative_for_like_signs() {
    let a = FeeMultiplier::Positive(p(35), 4);
    let b = FeeMultiplier::Positive(p(80), 1);
    assert_eq!(a.sum(b), b.sum(a));

    let c = FeeMultiplier::Negative(p(45));
    let d = FeeMultiplier::Negative(p(25));
    assert_eq!(c.sum(d), d.sum(c));
}

#[test]
fn sum_is_commutative_for_unlike_signs() {
    let a = FeeMultiplier::Positive(p(10), 3);
    let b = FeeMultiplier::Negative(p(70));
    assert_eq!(a.sum(b), b.sum(a));
    assert_eq!(a.sum(b), FeeMultiplier::Positive(p(60), 2));
}

#[test]
fn fraction_sum_reaching_one_unit_wraps_into_carry() {
    assert_eq!(
        FeeMultiplier::Positive(p(50), 0).sum(FeeMultiplier::Positive(p(50), 0)),
        FeeMultiplier::Positive(p(0), 1)
    );
}

#[test]
fn positive_carry_saturates() {
    assert_eq!(
        FeeMultiplier::Positive(p(0), u32::MAX).sum(FeeMultiplier::Positive(p(0), 1)),
        FeeMultiplier::Positive(p(0), u32::MAX)
    );
    assert_eq!(
        FeeMultiplier::Positive(p(60), u32::MAX).sum(FeeMultiplier::Positive(p(60), 0)),
        FeeMultiplier::Positive(p(20), u32::MAX)
    );
}

#[test]
fn negative_sum_caps_at_minus_one() {
    assert_eq!(
        FeeMultiplier::Negative(p(60)).sum(FeeMultiplier::Negative(p(60))),
        FeeMultiplier::Negative(p(100))
    );
    assert_eq!(
        FeeMultiplier::Negative(p(100)).sum(FeeMultiplier::Negative(p(100))),
        FeeMultiplier::Negative(Perbill::from_parts(BILLION))
    );
}

#[test]
fn default_multiplier_is_identity() {
    for w in [0u32, 1, 42, 1024 * 1024, u32::MAX] {
        assert_eq!(FeeMultiplier::default().apply_to(w), w);
    }
}

#[test]
fn positive_apply_adds_bonus_and_carry_multiples() {
    // 100 + 10% of 100 + 2 * 100
    assert_eq!(FeeMultiplier::Positive(p(10), 2).apply_to(100), 310);
    // the carry term saturates
    assert_eq!(FeeMultiplier::Positive(p(0), u32::MAX).apply_to(2), u32::MAX);
}

#[test]
fn negative_apply_grants_discount() {
    assert_eq!(FeeMultiplier::Negative(p(50)).apply_to(100), 50);
    assert_eq!(FeeMultiplier::Negative(p(30)).apply_to(10), 7);
}

#[test]
fn negative_apply_clamps_at_zero() {
    assert_eq!(FeeMultiplier::Negative(p(100)).apply_to(7), 0);
    assert_eq!(FeeMultiplier::Negative(p(100)).apply_to(u32::MAX), 0);
    // a raw fraction beyond one whole unit is clamped at construction
    assert_eq!(
        FeeMultiplier::Negative(Perbill::from_parts(3_000_000_000)).apply_to(100),
        0
    );
}

#[test]
fn perbill_construction_and_scaling() {
    assert_eq!(Perbill::from_parts(2_000_000_000).parts(), BILLION);
    assert_eq!(Perbill::zero().parts(), 0);
    assert_eq!(Perbill::from_parts(500_000_000).mul_weight(1000), 500);
    // scaling rounds down
    assert_eq!(Perbill::from_parts(1).mul_weight(999_999_999), 0);
    assert_eq!(
        Perbill::from_parts(800_000_000)
            .saturating_add(Perbill::from_parts(800_000_000))
            .parts(),
        BILLION
    );
}
