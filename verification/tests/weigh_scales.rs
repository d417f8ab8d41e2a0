use weights::Conditional;
use weights::DispatchClass;
use weights::Linear;
use weights::Quadratic;
use weights::TransactionWeight;
use weights::Weighable;
use weights::IDEAL_TRANSACTIONS_WEIGHT;
use weights::MAX_TRANSACTIONS_WEIGHT;

#[test]
fn linear_weighs_the_product() {
    assert_eq!(Linear(5).weigh_data(7), 35);
    assert_eq!(Linear(0).weigh_data(u32::MAX), 0);
}

#[test]
fn linear_saturates_instead_of_wrapping() {
    // 2 * u32::MAX wraps to u32::MAX - 1; the scale must clamp instead
    assert_eq!(Linear(u32::MAX).weigh_data(2), u32::MAX);
    assert_eq!(Linear(2).weigh_data(u32::MAX), u32::MAX);
}

#[test]
fn quadratic_weighs_the_polynomial() {
    // 1*4^2 + 2*5 + 3
    assert_eq!(Quadratic(1, 2, 3).weigh_data(4, 5), 29);
    assert_eq!(Quadratic(0, 0, 11).weigh_data(100, 100), 11);
}

#[test]
fn quadratic_terms_saturate_independently() {
    // 65536^2 is exactly 2^32: the squaring clamps, it must not wrap to 0
    assert_eq!(Quadratic(1, 2, 3).weigh_data(65536, 5), u32::MAX);
    // with a zero square coefficient a huge x leaves the other terms alone
    assert_eq!(Quadratic(0, 2, 3).weigh_data(u32::MAX, 5), 13);
}

#[test]
fn conditional_weighs_by_the_switch() {
    assert_eq!(Conditional(9).weigh_data(true, 6), 54);
    assert_eq!(Conditional(9).weigh_data(false, 6), 9);
    assert_eq!(Conditional(2).weigh_data(true, u32::MAX), u32::MAX);
}

#[test]
fn scales_pay_fees_and_classify_as_normal() {
    assert!(Linear(1).pays_fee());
    assert!(Quadratic(1, 1, 1).pays_fee());
    assert!(Conditional(1).pays_fee());
    assert_eq!(Linear(1).classify_dispatch(), DispatchClass::Normal);
    assert_eq!(Quadratic(1, 1, 1).classify_dispatch(), DispatchClass::Normal);
    assert_eq!(Conditional(1).classify_dispatch(), DispatchClass::Normal);
    assert_eq!(DispatchClass::default(), DispatchClass::Normal);
}

#[test]
fn transaction_weight_basic_charges_base_and_bytes() {
    assert_eq!(TransactionWeight::Basic(10, 3).weight(5), 25);
    assert_eq!(TransactionWeight::Basic(5, u32::MAX).weight(2), u32::MAX);
}

#[test]
fn transaction_weight_default_is_the_encoded_size() {
    assert_eq!(TransactionWeight::default(), TransactionWeight::Basic(0, 1));
    assert_eq!(TransactionWeight::default().weight(100), 100);
}

#[test]
fn transaction_weight_max_and_free() {
    assert_eq!(TransactionWeight::Max.weight(0), 3 * 1024 * 1024);
    assert_eq!(TransactionWeight::Max.weight(10_000), 3 * 1024 * 1024);
    assert_eq!(TransactionWeight::Free.weight(10_000), 0);
}

#[test]
fn block_weight_bounds() {
    assert_eq!(MAX_TRANSACTIONS_WEIGHT, 4 * 1024 * 1024);
    assert_eq!(IDEAL_TRANSACTIONS_WEIGHT, 1024 * 1024);
    assert_eq!(MAX_TRANSACTIONS_WEIGHT, 4 * IDEAL_TRANSACTIONS_WEIGHT);
}
