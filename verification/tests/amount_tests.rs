use monet::CurrencyAmount;

#[test]
fn test_unit_round_trip() {
    assert_eq!(CurrencyAmount::with_unit(7).into_unit(), CurrencyAmount::from(7));
    assert_eq!(CurrencyAmount::with_unit(-7).into_unit(), CurrencyAmount::from(-7));
    assert_eq!(CurrencyAmount::with_unit(0).into_unit(), CurrencyAmount::from(0));
}

#[test]
fn test_tenths_round_trip() {
    assert_eq!(CurrencyAmount::with_tenths(123).into_tenths(), CurrencyAmount::from(123));
    assert_eq!(CurrencyAmount::with_tenths(-123).into_tenths(), CurrencyAmount::from(-123));
}

#[test]
fn test_cents_round_trip() {
    assert_eq!(CurrencyAmount::with_cents(2125).into_cents(), CurrencyAmount::from(2125));
    assert_eq!(CurrencyAmount::with_cents(-2125).into_cents(), CurrencyAmount::from(-2125));
}

#[test]
fn test_thousands_round_trip() {
    assert_eq!(CurrencyAmount::with_thousands(999).into_thousands(), CurrencyAmount::from(999));
    assert_eq!(
        CurrencyAmount::with_thousands(-999).into_thousands(),
        CurrencyAmount::from(-999)
    );
}

#[test]
fn test_scaled_representation() {
    assert_eq!(CurrencyAmount::with_unit(2).raw(), 2_000_000);
    assert_eq!(CurrencyAmount::with_tenths(5).raw(), 500_000);
    assert_eq!(CurrencyAmount::with_cents(25).raw(), 250_000);
    assert_eq!(CurrencyAmount::with_thousands(125).raw(), 125_000);
}

#[test]
fn test_truncation_toward_zero() {
    // Reading back at a coarser precision truncates toward zero for
    // both signs.
    assert_eq!(CurrencyAmount::from(1_999_999).into_unit().raw(), 1);
    assert_eq!(CurrencyAmount::from(-1_999_999).into_unit().raw(), -1);
}

#[test]
fn test_amount_arithmetic() {
    let a = CurrencyAmount::from(3_000_000);
    let b = CurrencyAmount::from(2_000_000);
    assert_eq!(a.add(b).raw(), 5_000_000);
    assert_eq!(a.sub(b).raw(), 1_000_000);
    assert_eq!(CurrencyAmount::from(7).mul(CurrencyAmount::from(3)).raw(), 21);
    assert_eq!(CurrencyAmount::from(-7).div(CurrencyAmount::from(2)).raw(), -3);
}

#[test]
fn test_unit_eq_tolerates_sub_unit_differences() {
    // Whole-unit comparison: fractions below one unit vanish.
    let a = CurrencyAmount::from(1_999_999);
    let b = CurrencyAmount::from(1_000_000);
    assert!(a.unit_eq(&b));
    assert_ne!(a, b);
    let c = CurrencyAmount::from(2_000_000);
    assert!(!a.unit_eq(&c));
}

#[test]
fn test_amount_default() {
    assert_eq!(CurrencyAmount::default().raw(), 0);
}
