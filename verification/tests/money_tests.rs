use monet::{CurrencyAmount, CurrencyCode, Error, Money, Rates};

fn rates() -> Rates {
    let mut map: Vec<(CurrencyCode, CurrencyAmount)> = Vec::new();
    for (code, worth) in [
        ("USD", 1_000_000),
        ("CHF", 1_100_000),
        ("EUR", 1_200_000),
        ("GBP", 1_500_000),
    ] {
        map.push((code.parse().unwrap(), worth.into()));
    }
    Rates::with_rates(map)
}

#[test]
fn test_into_code() {
    let money_chf = Money::new(CurrencyAmount::with_unit(1_000_000), "CHF".parse().unwrap());
    let money_usd = money_chf.into_code("USD".parse().unwrap(), &rates());

    assert_eq!(
        money_usd,
        Ok(Money::new(
            CurrencyAmount::with_unit(1_100_000),
            "USD".parse().unwrap()
        ))
    );
}

#[test]
fn test_display() {
    let money = Money::with_str_code(CurrencyAmount::with_cents(2125), "CHF").unwrap();

    assert_eq!(money.format_default().unwrap(), "21.25 CHF".to_string());
    assert_eq!(money.format(2).unwrap(), "21.25 CHF".to_string());
    assert_eq!(money.format(6).unwrap(), "21.250000 CHF".to_string());
    assert_eq!(money.format(0).unwrap(), "21 CHF".to_string());
}

#[test]
fn test_display_precision_too_high() {
    let money = Money::with_str_code(CurrencyAmount::with_cents(2125), "CHF").unwrap();
    assert_eq!(money.format(8), Err(Error::PrecisionTooHigh(8)));
    assert_eq!(money.format(7), Err(Error::PrecisionTooHigh(7)));
}

#[test]
fn test_display_zero_padded_fraction() {
    // A fraction smaller than the precision is padded with zeros.
    let money = Money::with_str_code(CurrencyAmount::with_cents(2105), "CHF").unwrap();
    assert_eq!(money.format(2).unwrap(), "21.05 CHF".to_string());
}

#[test]
fn test_display_unknown_currency() {
    let money = Money::with_str_code(CurrencyAmount::with_cents(100), "ZZZ").unwrap();
    let code: CurrencyCode = "ZZZ".parse().unwrap();
    assert_eq!(money.format_default(), Err(Error::UnknownCurrency(code)));
}

#[test]
fn test_with_str_code_rejects_short_code() {
    let result = Money::with_str_code(CurrencyAmount::with_unit(1), "US");
    assert_eq!(result, Err(Error::MalformedCode("US".to_string())));
}

#[test]
fn test_with_str_code_rejects_long_code() {
    let result = Money::with_str_code(CurrencyAmount::with_unit(1), "USDX");
    assert_eq!(result, Err(Error::MalformedCode("USDX".to_string())));
}

#[test]
fn test_with_cents() {
    let money = Money::with_cents(2125, "CHF").unwrap();
    assert_eq!(money.amount, CurrencyAmount::from(21_250_000));
}

#[test]
fn test_self_conversion_is_identity() {
    let code: CurrencyCode = "CHF".parse().unwrap();
    let money = Money::new(CurrencyAmount::with_cents(12_345), code);
    assert_eq!(money.into_code(code, &rates()), Ok(money));
}

#[test]
fn test_into_code_missing_rate() {
    let code: CurrencyCode = "JPY".parse().unwrap();
    let money = Money::new(CurrencyAmount::with_unit(1), code);
    assert_eq!(
        money.into_code("USD".parse().unwrap(), &rates()),
        Err(Error::RateNotFound(code))
    );

    let money_usd = Money::new(CurrencyAmount::with_unit(1), "USD".parse().unwrap());
    assert_eq!(money_usd.into_code(code, &rates()), Err(Error::RateNotFound(code)));
}

#[test]
fn test_currency_code_round_trip() {
    let code: CurrencyCode = "CHF".parse().unwrap();
    assert_eq!(code.bytes(), *b"CHF");
}

#[test]
fn test_rates_last_entry_wins() {
    let mut map: Vec<(CurrencyCode, CurrencyAmount)> = Vec::new();
    map.push(("USD".parse().unwrap(), 1_000_000.into()));
    map.push(("USD".parse().unwrap(), 2_000_000.into()));
    let rates = Rates::with_rates(map);
    assert_eq!(
        rates.worth("USD".parse().unwrap()),
        Ok(CurrencyAmount::from(2_000_000))
    );
}

#[test]
fn test_rates_empty() {
    let code: CurrencyCode = "USD".parse().unwrap();
    assert_eq!(Rates::new().worth(code), Err(Error::RateNotFound(code)));
}

#[test]
fn test_error_describe() {
    let code: CurrencyCode = "USD".parse().unwrap();
    assert!(!Error::RateNotFound(code).describe().is_empty());
    assert!(!Error::MalformedCode("US".to_string()).describe().is_empty());
}
