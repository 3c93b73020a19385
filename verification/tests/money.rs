use market_model::currency::{Currency, CurrencyError, CurrencyRegistry};
use market_model::enums::CurrencyType;
use market_model::money::{
    ArithmeticError, Money, MoneyError, MONEY_MAX, MONEY_MIN, MONEY_RAW_MAX, MONEY_RAW_MIN,
};
use rust_decimal::Decimal;

fn usd() -> Currency {
    Currency::new("USD", 2, 840, "United States dollar", CurrencyType::Fiat).unwrap()
}

fn aud() -> Currency {
    Currency::new("AUD", 2, 36, "Australian dollar", CurrencyType::Fiat).unwrap()
}

fn btc() -> Currency {
    Currency::new("BTC", 8, 0, "Bitcoin", CurrencyType::Crypto).unwrap()
}

fn jpy() -> Currency {
    Currency::new("JPY", 0, 392, "Japanese yen", CurrencyType::Fiat).unwrap()
}

fn nano() -> Currency {
    Currency::new("NANO", 9, 0, "Nano", CurrencyType::Crypto).unwrap()
}

fn registry() -> CurrencyRegistry {
    let mut registry = CurrencyRegistry::new();
    for currency in [usd(), aud(), btc(), jpy(), nano()] {
        registry.register(currency).unwrap();
    }
    registry
}

#[test]
fn test_debug() {
    let money = Money::new("1010.12", usd());
    assert_eq!(money.to_debug_string(), "Money(1010.12, USD)");
}

#[test]
fn test_display() {
    let money = Money::new("1010.12", usd());
    assert_eq!(money.to_string(), "1010.12 USD");
}

#[test]
fn test_money_different_currency_addition() {
    let usd = Money::new("1000.0", usd());
    let btc = Money::new("1.0", btc());
    assert!(!usd.is_same_currency(&btc));
    assert_eq!(usd.checked_add(btc), Err(ArithmeticError::CurrencyMismatch));
    assert_eq!(usd.checked_sub(btc), Err(ArithmeticError::CurrencyMismatch));
}

#[test]
fn test_money_min_max_values() {
    let min_money = Money::new("-9223372036", usd());
    let max_money = Money::new("9223372036", usd());
    assert_eq!(min_money.raw, MONEY_RAW_MIN);
    assert_eq!(max_money.raw, MONEY_RAW_MAX);
    assert_eq!(MONEY_RAW_MAX, MONEY_MAX * 1_000_000_000);
    assert_eq!(MONEY_RAW_MIN, MONEY_MIN * 1_000_000_000);
    assert_eq!(max_money.to_string(), "9223372036.00 USD");
    assert_eq!(min_money.to_string(), "-9223372036.00 USD");
}

#[test]
fn test_money_out_of_range() {
    assert_eq!(Money::new_checked("9223372036.01", usd()), Err(MoneyError::OutOfRange));
    assert_eq!(Money::new_checked("9223372036.000000000001", usd()), Err(MoneyError::OutOfRange));
    assert_eq!(Money::new_checked("-9223372037", usd()), Err(MoneyError::OutOfRange));
    assert_eq!(
        Money::new_checked("100000000000000000000000000000000", usd()),
        Err(MoneyError::OutOfRange)
    );
    assert_eq!(Money::new_checked("9223372036.000", usd()).unwrap().raw, MONEY_RAW_MAX);
    assert_eq!(Money::new_checked("9223372035.999", usd()).unwrap().raw, MONEY_RAW_MAX);
}

#[test]
fn test_money_invalid_amount() {
    for amount in ["", ".", "-", "+", "0x00", "1e3", "1,000", "1 000", "1.2.3", "--1", "abc", "1_000"] {
        assert_eq!(Money::new_checked(amount, usd()), Err(MoneyError::InvalidAmount), "{}", amount);
    }
}

#[test]
fn test_money_invalid_precision() {
    let bad = Currency { precision: 10, ..usd() };
    assert_eq!(Money::new_checked("1", bad), Err(MoneyError::InvalidPrecision));
    assert_eq!(Money::new_checked("x", bad), Err(MoneyError::InvalidAmount));
    assert_eq!(Money::new_checked("9223372037", bad), Err(MoneyError::OutOfRange));
}

#[test]
fn test_money_rounds_to_precision() {
    assert_eq!(Money::new("1.005", usd()).raw, 1_010_000_000);
    assert_eq!(Money::new("1.004999", usd()).raw, 1_000_000_000);
    assert_eq!(Money::new("-1.005", usd()).raw, -1_010_000_000);
    assert_eq!(Money::new("0.5", jpy()).raw, 1_000_000_000);
    assert_eq!(Money::new("0.49", jpy()).raw, 0);
    assert_eq!(Money::new("2.5", jpy()).raw, 3_000_000_000);
    assert_eq!(Money::new("0.1234567894", nano()).raw, 123_456_789);
    assert_eq!(Money::new("0.1234567895", nano()).raw, 123_456_790);
    assert_eq!(Money::new(".5", usd()).raw, 500_000_000);
    assert_eq!(Money::new("5.", usd()).raw, 5_000_000_000);
    assert_eq!(Money::new("+5", usd()).raw, 5_000_000_000);
    assert_eq!(Money::new("007", usd()).raw, 7_000_000_000);
    assert_eq!(Money::new("-0.001", usd()).raw, 0);
}

#[test]
fn test_money_is_zero() {
    assert!(Money::from_raw(0, usd()).is_zero());
    assert!(!Money::from_raw(1, usd()).is_zero());
    assert!(Money::new("0.00", usd()).is_zero());
}

#[test]
fn test_money_negation() {
    let money = Money::new("100.0", usd());
    let result = -money;
    assert_eq!(result.raw, -100_000_000_000);
    assert_eq!(result.currency, usd());
    assert_eq!(result.to_string(), "-100.00 USD");
}

#[test]
fn test_money_plus_its_negation_is_zero() {
    for raw in [0, 1, -1, 1_010_120_000_000, i64::MAX, i64::MIN + 1] {
        let money = Money::from_raw(raw, usd());
        assert_eq!((money + (-money)).raw, 0);
        assert_eq!(money.checked_add(-money), Ok(Money::from_raw(0, usd())));
    }
}

#[test]
fn test_money_addition_and_subtraction() {
    let a = Money::new("1000.50", usd());
    let b = Money::new("0.75", usd());
    assert_eq!((a + b).to_string(), "1001.25 USD");
    assert_eq!((a - b).to_string(), "999.75 USD");
    assert_eq!((b - a).to_string(), "-999.75 USD");
    assert_eq!(a.checked_add(b), Ok(Money::new("1001.25", usd())));
    assert_eq!(a.checked_sub(b), Ok(Money::new("999.75", usd())));
    let mut c = a;
    c.add_assign(b);
    assert_eq!(c, Money::new("1001.25", usd()));
    c.sub_assign(b);
    c.sub_assign(b);
    assert_eq!(c, Money::new("999.75", usd()));
}

#[test]
fn test_money_overflow_is_an_error() {
    let max = Money::from_raw(i64::MAX, usd());
    let one = Money::from_raw(1, usd());
    let min = Money::from_raw(i64::MIN, usd());
    assert_eq!(max.checked_add(one), Err(ArithmeticError::Overflow));
    assert_eq!(min.checked_sub(one), Err(ArithmeticError::Overflow));
    assert_eq!(min.checked_add(Money::from_raw(-1, usd())), Err(ArithmeticError::Overflow));
    assert_eq!(max.checked_sub(one), Ok(Money::from_raw(i64::MAX - 1, usd())));
    assert_eq!(max.checked_add(Money::from_raw(1, btc())), Err(ArithmeticError::CurrencyMismatch));
}

#[test]
fn test_money_ordering() {
    let a = Money::new("1.00", usd());
    let b = Money::new("2.00", usd());
    assert!(a.lt(&b) && a.le(&b) && !a.gt(&b) && !a.ge(&b));
    assert!(b.gt(&a) && b.ge(&a) && !b.lt(&a) && !b.le(&a));
    assert!(a.le(&a) && a.ge(&a) && !a.lt(&a) && !a.gt(&a));
}

#[test]
fn test_money_equality() {
    assert_eq!(Money::new("1.00", usd()), Money::from_raw(1_000_000_000, usd()));
    assert_ne!(Money::new("1.00", usd()), Money::new("1.00", aud()));
    assert_ne!(Money::new("1.00", usd()), Money::new("1.01", usd()));
}

#[test]
fn test_money_new_usd() {
    let money = Money::new("1000.0", usd());
    assert_eq!(money.currency.code, "USD");
    assert_eq!(money.currency.precision, 2);
    assert_eq!(money.raw, 1_000_000_000_000);
    assert_eq!(money.to_string(), "1000.00 USD");
    assert_eq!(money.to_formatted_string(), "1_000.00 USD");
    assert_eq!(money.as_decimal(), Decimal::new(100000, 2));
    assert_eq!(money.as_decimal().scale(), 2);
    assert_eq!(money.as_decimal().mantissa(), 100000);
}

#[test]
fn test_money_new_btc() {
    let money = Money::new("10.3", btc());
    assert_eq!(money.currency.code, "BTC");
    assert_eq!(money.currency.precision, 8);
    assert_eq!(money.to_string(), "10.30000000 BTC");
    assert_eq!(money.to_formatted_string(), "10.30000000 BTC");
}

#[test]
fn test_money_formatted_string_groups_whole_part_only() {
    assert_eq!(Money::new("1234567.12345678", btc()).to_formatted_string(), "1_234_567.12345678 BTC");
    assert_eq!(Money::new("-1234567", jpy()).to_formatted_string(), "-1_234_567 JPY");
    assert_eq!(Money::new("999", jpy()).to_formatted_string(), "999 JPY");
    assert_eq!(Money::new("100000", usd()).to_formatted_string(), "100_000.00 USD");
    assert_eq!(Money::new("9223372036", usd()).to_formatted_string(), "9_223_372_036.00 USD");
}

#[test]
fn test_money_to_string_of_unaligned_raw_rounds_half_to_even() {
    assert_eq!(Money::from_raw(125_000_000, usd()).to_string(), "0.12 USD");
    assert_eq!(Money::from_raw(135_000_000, usd()).to_string(), "0.14 USD");
    assert_eq!(Money::from_raw(1_999_999_999, usd()).to_string(), "2.00 USD");
    assert_eq!(Money::from_raw(-1, usd()).to_string(), "-0.00 USD");
    assert_eq!(Money::from_raw(i64::MIN, nano()).to_string(), "-9223372036.854775808 NANO");
    assert_eq!(Money::from_raw(i64::MAX, jpy()).to_string(), "9223372037 JPY");
}

#[test]
fn test_money_as_decimal_drops_what_is_beyond_the_precision() {
    assert_eq!(Money::from_raw(1_999_999_999, usd()).as_decimal(), Decimal::new(199, 2));
    assert_eq!(Money::from_raw(-1_999_999_999, usd()).as_decimal(), Decimal::new(-199, 2));
    assert_eq!(Money::from_raw(-1_999_999_999, nano()).as_decimal(), Decimal::new(-1_999_999_999, 9));
    assert_eq!(Money::from_raw(5_000_000_000, jpy()).as_decimal().mantissa(), 5);
    assert_eq!(Money::from_raw(5_000_000_000, jpy()).as_decimal().scale(), 0);
}

#[test]
fn test_from_str_invalid_input() {
    let registry = registry();
    assert_eq!(Money::from_str("0USD", &registry), Err(MoneyError::InvalidFormat));
    assert_eq!(Money::from_str("0x00 USD", &registry), Err(MoneyError::InvalidAmount));
    assert_eq!(Money::from_str("0 US", &registry), Err(MoneyError::UnknownCurrency));
    assert_eq!(Money::from_str("0 USD USD", &registry), Err(MoneyError::InvalidFormat));
    assert_eq!(Money::from_str("", &registry), Err(MoneyError::InvalidFormat));
    assert_eq!(Money::from_str("   ", &registry), Err(MoneyError::InvalidFormat));
    assert_eq!(Money::from_str("x US", &registry), Err(MoneyError::InvalidAmount));
    assert_eq!(Money::from_str("9223372037 USD", &registry), Err(MoneyError::OutOfRange));
    assert_eq!(Money::from_str("9223372037 US", &registry), Err(MoneyError::UnknownCurrency));
    assert_eq!(Money::from_str("___ USD", &registry), Err(MoneyError::InvalidAmount));
}

#[test]
fn test_from_str_valid_input() {
    let registry = registry();
    let cases = [
        ("0 USD", usd(), Decimal::new(0, 2)),
        ("1.1 AUD", aud(), Decimal::new(110, 2)),
        ("1.12345678 BTC", btc(), Decimal::new(112345678, 8)),
        ("10_000.10 USD", usd(), Decimal::new(1000010, 2)),
        ("  -7.5\tJPY\n", jpy(), Decimal::new(-8, 0)),
    ];
    for (input, expected_currency, expected_dec) in cases {
        let money = Money::from_str(input, &registry).unwrap();
        assert_eq!(money.currency, expected_currency);
        assert_eq!(money.currency.precision, expected_currency.precision);
        assert_eq!(money.as_decimal(), expected_dec);
        assert_eq!(money.as_decimal().scale(), expected_dec.scale());
    }
}

#[test]
fn test_money_text_round_trip() {
    let registry = registry();
    let amounts = [
        Money::new("1010.12", usd()),
        Money::new("-0.01", usd()),
        Money::new("0", usd()),
        Money::new("9223372036", usd()),
        Money::new("-9223372036", btc()),
        Money::new("1.12345678", btc()),
        Money::new("123456789", jpy()),
        Money::new("-0.000000001", nano()),
    ];
    for money in amounts {
        let text = money.to_string();
        let back = Money::from_str(&text, &registry).unwrap();
        assert_eq!(back, money);
        assert_eq!(back.raw, money.raw);
        assert_eq!(back.currency.precision, money.currency.precision);
        let grouped = Money::from_str(&money.to_formatted_string(), &registry).unwrap();
        assert_eq!(grouped, money);
    }
}

#[test]
fn test_currency_new_checks_precision_then_code() {
    assert_eq!(Currency::new("USD", 10, 840, "x", CurrencyType::Fiat), Err(CurrencyError::InvalidPrecision));
    assert_eq!(Currency::new("", 2, 840, "x", CurrencyType::Fiat), Err(CurrencyError::InvalidCode));
    assert_eq!(Currency::new("US D", 2, 840, "x", CurrencyType::Fiat), Err(CurrencyError::InvalidCode));
    assert_eq!(Currency::new(" ", 10, 840, "x", CurrencyType::Fiat), Err(CurrencyError::InvalidPrecision));
    assert!(usd().is_valid());
    assert!(!Currency { precision: 10, ..usd() }.is_valid());
}

#[test]
fn test_currency_registry() {
    let mut registry = registry();
    assert_eq!(registry.lookup("USD").map(|c| c.precision), Some(2));
    assert_eq!(registry.lookup("BTC").map(|c| c.precision), Some(8));
    assert_eq!(registry.lookup("usd"), None);
    assert_eq!(registry.lookup(""), None);
    assert_eq!(registry.register(usd()), Err(CurrencyError::DuplicateCode));
    assert_eq!(
        registry.register(Currency { precision: 12, ..usd() }),
        Err(CurrencyError::InvalidPrecision)
    );
    assert_eq!(
        registry.register(Currency { code: "A B", ..usd() }),
        Err(CurrencyError::InvalidCode)
    );
    let eur = Currency::new("EUR", 2, 978, "Euro", CurrencyType::Fiat).unwrap();
    assert_eq!(registry.lookup("EUR"), None);
    assert_eq!(registry.register(eur), Ok(()));
    assert_eq!(registry.lookup("EUR"), Some(eur));
}
