use monet::{CurrencyAmount, CurrencyCode, Error, Exponent, Money, Operation, Rates};

fn rates() -> Rates {
    let mut map: Vec<(CurrencyCode, CurrencyAmount)> = Vec::new();
    for (code, worth) in [
        ("USD", 1_000_000),
        ("CHF", 1_100_000),
        ("EUR", 1_200_000),
        ("GBP", 1_500_000),
    ] {
        map.push((code.parse().unwrap(), worth.into()));
    }
    Rates::with_rates(map)
}

#[test]
fn test_add_same_code_operation() {
    let money1 = Money::new(1_000_000.into(), "USD".parse().unwrap());
    let money2 = Money::new(2_000_001.into(), "USD".parse().unwrap());
    let rates = rates();

    assert_eq!(
        Ok(Money::new(3_000_001.into(), "USD".parse().unwrap())),
        Operation::Money(money1).add(Operation::Money(money2)).execute(&rates)
    );
}

#[test]
fn test_add_operation() {
    // Two equal amounts of money
    let money1 = Money::with_str_code(1_000_010.into(), "GBP").unwrap();
    let money2 = Money::with_str_code(1_500_015.into(), "USD").unwrap();
    let rates = rates();

    assert_eq!(
        Money::with_str_code(2_000_020.into(), "GBP"),
        Operation::Money(money1).add(Operation::Money(money2)).execute(&rates)
    );
}

#[test]
fn test_add_negative_operation() {
    // Two equal amounts of money
    let money1 = Money::with_str_code(1_000_010.into(), "GBP").unwrap();
    let money2 = Money::with_str_code((-1_500_015).into(), "USD").unwrap();
    let rates = rates();

    assert_eq!(
        Money::with_str_code(0.into(), "GBP"),
        Operation::Money(money1).add(Operation::Money(money2)).execute(&rates)
    );
}

#[test]
fn test_sub_operation() {
    // Two equal amounts of money
    let money1 = Money::with_str_code(1_000_010.into(), "GBP").unwrap();
    let money2 = Money::with_str_code(1_500_015.into(), "USD").unwrap();
    let rates = rates();

    assert_eq!(
        Money::with_str_code(0.into(), "GBP"),
        Operation::Money(money1).sub(Operation::Money(money2)).execute(&rates)
    );
}

#[test]
fn test_sub_negative_operation() {
    // Two equal amounts of money
    let money1 = Money::with_str_code(1_000_010.into(), "GBP").unwrap();
    let money2 = Money::with_str_code((-1_500_015).into(), "USD").unwrap();
    let rates = rates();

    assert_eq!(
        Money::with_str_code(2_000_020.into(), "GBP"),
        Operation::Money(money1).sub(Operation::Money(money2)).execute(&rates)
    );
}

#[test]
fn test_mul_operation() {
    let money = Money::with_str_code(1_000_001.into(), "USD").unwrap();

    assert_eq!(
        Operation::Money(money).mul(Exponent::new(1000.into(), 2)).execute(&rates()),
        Money::with_str_code(10_000_010.into(), "USD")
    );

    assert_eq!(
        Operation::Money(money).mul(Exponent::new(1000.into(), 4)).execute(&rates()),
        Money::with_str_code(100_000.into(), "USD")
    );
}

#[test]
fn test_mul_negative_operation() {
    let money = Money::with_str_code((-1_000_001).into(), "USD").unwrap();

    assert_eq!(
        Operation::Money(money).mul(Exponent::new(1000.into(), 2)).execute(&rates()),
        Money::with_str_code((-10_000_010).into(), "USD")
    );

    assert_eq!(
        Operation::Money(money).mul(Exponent::new(1000.into(), 4)).execute(&rates()),
        Money::with_str_code((-100_000).into(), "USD")
    );
}

#[test]
fn test_div_operation() {
    let money = Money::with_str_code(1_000_001.into(), "USD").unwrap();

    assert_eq!(
        Operation::Money(money).div(Exponent::new(1000.into(), 2)).execute(&rates()),
        Money::with_str_code(100_000.into(), "USD")
    );

    assert_eq!(
        Operation::Money(money).div(Exponent::new(1000.into(), 4)).execute(&rates()),
        Money::with_str_code(10_000_010.into(), "USD")
    );
}

#[test]
fn test_div_negative_operation() {
    let money = Money::with_str_code((-1_000_001).into(), "USD").unwrap();

    assert_eq!(
        Operation::Money(money).div(Exponent::new(1000.into(), 2)).execute(&rates()),
        Money::with_str_code((-100_000).into(), "USD")
    );

    assert_eq!(
        Operation::Money(money).div(Exponent::new(1000.into(), 4)).execute(&rates()),
        Money::with_str_code((-10_000_010).into(), "USD")
    );
}

#[test]
fn test_money_operation() {
    let money = Money::with_str_code(1_000_000.into(), "USD").unwrap();
    let rates = rates();

    assert_eq!(Operation::Money(money).execute(&rates), Ok(money));
}

#[test]
fn test_long_add_and_sub_chain() {
    let money1 = Money::with_str_code(1_000_000.into(), "USD").unwrap();
    let money2 = Money::with_str_code(1_000_000.into(), "USD").unwrap();
    let money3 = Money::with_str_code(2_000_000.into(), "USD").unwrap();
    let money4 = Money::with_str_code(2_000_000.into(), "USD").unwrap();
    let money5 = Money::with_str_code(1_000_000.into(), "USD").unwrap();
    let money6 = Money::with_str_code(1_000_000.into(), "USD").unwrap();
    let money7 = Money::with_str_code(2_000_000.into(), "USD").unwrap();

    let result = Operation::Money(money1)
        .add(Operation::Money(money2))
        .sub(Operation::Money(money3))
        .add(Operation::Money(money4))
        .add(Operation::Money(money5))
        .sub(Operation::Money(money6))
        .sub(Operation::Money(money7))
        .execute(&rates());

    assert_eq!(result, Money::with_str_code(0.into(), "USD"));
}

#[test]
fn test_long_add_and_sub_chain_with_negative_outcome() {
    let money1 = Money::with_str_code(1_000_000.into(), "USD").unwrap();
    let money2 = Money::with_str_code(1_000_000.into(), "USD").unwrap();
    let money3 = Money::with_str_code(2_000_000.into(), "USD").unwrap();
    let money4 = Money::with_str_code(2_000_000.into(), "USD").unwrap();
    let money5 = Money::with_str_code(1_000_000.into(), "USD").unwrap();
    let money6 = Money::with_str_code(1_000_000.into(), "USD").unwrap();
    let money7 = Money::with_str_code(3_000_000.into(), "USD").unwrap();

    let result = Operation::Money(money1)
        .add(Operation::Money(money2))
        .sub(Operation::Money(money3))
        .add(Operation::Money(money4))
        .add(Operation::Money(money5))
        .sub(Operation::Money(money6))
        .sub(Operation::Money(money7))
        .execute(&rates());

    assert_eq!(result, Money::with_str_code((-1_000_000).into(), "USD"));
}

#[test]
fn test_add_keeps_left_currency() {
    // Whatever the right operand's currency, the sum carries the left
    // operand's.
    let money_chf = Money::with_str_code(1_000_000.into(), "CHF").unwrap();
    let money_gbp = Money::with_str_code(1_000_000.into(), "GBP").unwrap();
    let result = Operation::Money(money_chf)
        .add(Operation::Money(money_gbp))
        .execute(&rates())
        .unwrap();
    let chf: CurrencyCode = "CHF".parse().unwrap();
    assert_eq!(result.currency_code, chf);
}

#[test]
fn test_add_sub_cancel() {
    // (a + b) - b evaluates to a exactly, even across currencies.
    let a = Money::with_str_code(123_456_789.into(), "EUR").unwrap();
    let b = Money::with_str_code(987_654_321.into(), "CHF").unwrap();
    let result = Operation::Money(a)
        .add(Operation::Money(b))
        .sub(Operation::Money(b))
        .execute(&rates());
    assert_eq!(result, Ok(a));
}

#[test]
fn test_execute_missing_rate() {
    // Evaluation referencing a currency absent from the table fails with
    // RateNotFound and leaves the inputs untouched.
    let money_usd = Money::with_str_code(1_000_000.into(), "USD").unwrap();
    let money_jpy = Money::with_str_code(1_000_000.into(), "JPY").unwrap();
    let rates = rates();

    let jpy: CurrencyCode = "JPY".parse().unwrap();
    let result = Operation::Money(money_usd).add(Operation::Money(money_jpy)).execute(&rates);
    assert_eq!(result, Err(Error::RateNotFound(jpy)));

    // The rate table is unchanged and can be used again.
    assert_eq!(rates.worth("USD".parse().unwrap()), Ok(CurrencyAmount::from(1_000_000)));
    let again = Operation::Money(money_usd).execute(&rates);
    assert_eq!(again, Ok(money_usd));
}

#[test]
fn test_exponent_normalized_eq() {
    // 1000 scaled down by 10^2 equals 10 scaled down by 10^0.
    let left = Exponent::new(1_000.into(), 2);
    let right = Exponent::new(10.into(), 0);
    assert!(left.normalized_eq(&right));

    let other = Exponent::new(11.into(), 0);
    assert!(!left.normalized_eq(&other));

    // Precision loss: 199 / 10^2 == 1 == 1 / 10^0.
    let lossy = Exponent::new(199.into(), 2);
    let one = Exponent::new(1.into(), 0);
    assert!(lossy.normalized_eq(&one));
}
