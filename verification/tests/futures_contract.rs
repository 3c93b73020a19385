use market_model::currency::Currency;
use market_model::enums::{AssetClass, CurrencyType, InstrumentClass};
use market_model::fixed::{Price, Quantity};
use market_model::futures_contract::{check_terms, FuturesContract, InstrumentError};
use market_model::identifiers::{InstrumentId, Symbol, Venue};
use market_model::instrument::{Instrument, InstrumentAny};
use market_model::nanos::UnixNanos;
use rust_decimal::Decimal;

fn usd() -> Currency {
    Currency::new("USD", 2, 840, "United States dollar", CurrencyType::Fiat).unwrap()
}

fn es_id() -> InstrumentId {
    InstrumentId::new(
        Symbol::from_str_unchecked("ESZ1".to_string()),
        Venue::from_str_unchecked("GLBX"),
    )
}

fn build(
    id: InstrumentId,
    exchange: Option<&str>,
    underlying: &str,
    price_precision: u8,
    price_increment: Price,
    min_quantity: Option<Quantity>,
    margin_init: Option<Decimal>,
) -> Result<FuturesContract, InstrumentError> {
    FuturesContract::new_checked(
        id,
        Symbol::from_str_unchecked("ESZ1".to_string()),
        AssetClass::Index,
        exchange.map(|e| e.to_string()),
        underlying.to_string(),
        UnixNanos::new(1_622_842_200_000_000_000),
        UnixNanos::new(1_639_751_400_000_000_000),
        usd(),
        price_precision,
        price_increment,
        Quantity::from_units(1),
        Quantity::from_units(1),
        None,
        min_quantity,
        None,
        None,
        margin_init,
        None,
        UnixNanos::new(0),
        UnixNanos::new(1),
    )
}

fn futures_contract_es() -> FuturesContract {
    build(es_id(), Some("XCME"), "ES", 2, Price::from_raw(10_000_000, 2), None, None).unwrap()
}

#[test]
fn test_equality() {
    let futures_contract = futures_contract_es();
    assert_eq!(futures_contract, futures_contract.clone());
}

#[test]
fn test_equality_is_by_id_alone() {
    let a = futures_contract_es();
    let b = build(es_id(), None, "NQ", 3, Price::from_raw(1_000_000, 3), None, None).unwrap();
    assert_ne!(a.underlying, b.underlying);
    assert_ne!(a.price_precision, b.price_precision);
    assert_eq!(a, b);
    let other_id = InstrumentId::new(
        Symbol::from_str_unchecked("ESH2".to_string()),
        Venue::from_str_unchecked("GLBX"),
    );
    let c = build(other_id, Some("XCME"), "ES", 2, Price::from_raw(10_000_000, 2), None, None)
        .unwrap();
    assert_ne!(a, c);
}

#[test]
fn test_new_checked_fills_defaults() {
    let c = futures_contract_es();
    assert_eq!(c.size_precision, 0);
    assert_eq!(c.size_increment, Quantity::from_raw(1_000_000_000, 0));
    assert_eq!(c.min_quantity, Some(Quantity::from_raw(1_000_000_000, 0)));
    assert_eq!(c.max_quantity, None);
    assert_eq!(c.margin_init, Decimal::ZERO);
    assert_eq!(c.margin_init.scale(), 0);
    assert_eq!(c.margin_maint, Decimal::ZERO);
    assert_eq!(c.exchange, Some("XCME".to_string()));
    assert_eq!(c.underlying, "ES");
    assert_eq!(c.currency, usd());
}

#[test]
fn test_new_checked_keeps_given_terms() {
    let c = build(
        es_id(),
        None,
        "ES",
        2,
        Price::from_raw(250_000_000, 2),
        Some(Quantity::from_units(5)),
        Some(Decimal::new(15, 1)),
    )
    .unwrap();
    assert_eq!(c.min_quantity, Some(Quantity::from_raw(5_000_000_000, 0)));
    assert_eq!(c.margin_init, Decimal::new(15, 1));
    assert_eq!(c.margin_init.scale(), 1);
    assert_eq!(c.exchange, None);
    assert_eq!(c.price_increment, Price::from_raw(250_000_000, 2));
    assert_eq!(c.activation_ns, UnixNanos::new(1_622_842_200_000_000_000));
    assert_eq!(c.expiration_ns, UnixNanos::new(1_639_751_400_000_000_000));
    assert_eq!(c.ts_event, UnixNanos::new(0));
    assert_eq!(c.ts_init, UnixNanos::new(1));
}

#[test]
fn test_new_checked_rejects_blank_exchange() {
    let price = Price::from_raw(10_000_000, 2);
    assert_eq!(build(es_id(), Some(""), "ES", 2, price, None, None), Err(InstrumentError::InvalidExchange));
    assert_eq!(
        build(es_id(), Some(" \t\u{3000}"), "ES", 2, price, None, None),
        Err(InstrumentError::InvalidExchange)
    );
    assert!(build(es_id(), Some(" X "), "ES", 2, price, None, None).is_ok());
}

#[test]
fn test_new_checked_rejects_empty_underlying() {
    let price = Price::from_raw(10_000_000, 2);
    assert_eq!(
        build(es_id(), Some("XCME"), "", 2, price, None, None),
        Err(InstrumentError::InvalidUnderlying)
    );
}

#[test]
fn test_new_checked_rejects_precision_mismatch() {
    assert_eq!(
        build(es_id(), Some("XCME"), "ES", 3, Price::from_raw(10_000_000, 2), None, None),
        Err(InstrumentError::PricePrecisionMismatch)
    );
}

#[test]
fn test_new_checked_rejects_non_positive_increment() {
    assert_eq!(
        build(es_id(), Some("XCME"), "ES", 2, Price::from_raw(0, 2), None, None),
        Err(InstrumentError::NonPositivePriceIncrement)
    );
    assert_eq!(
        build(es_id(), Some("XCME"), "ES", 2, Price::from_raw(-10_000_000, 2), None, None),
        Err(InstrumentError::NonPositivePriceIncrement)
    );
}

#[test]
fn test_new_checked_reports_first_invalid_term() {
    assert_eq!(
        build(es_id(), Some(" "), "", 3, Price::from_raw(0, 2), None, None),
        Err(InstrumentError::InvalidExchange)
    );
    assert_eq!(
        build(es_id(), None, "", 3, Price::from_raw(0, 2), None, None),
        Err(InstrumentError::InvalidUnderlying)
    );
    assert_eq!(
        build(es_id(), None, "ES", 3, Price::from_raw(0, 2), None, None),
        Err(InstrumentError::PricePrecisionMismatch)
    );
    assert_eq!(
        check_terms(&None, &"ES".to_string(), 2, Price::from_raw(1, 2)),
        None
    );
}

#[test]
fn test_new_builds_what_new_checked_builds() {
    let a = FuturesContract::new(
        es_id(),
        Symbol::from_str_unchecked("ESZ1".to_string()),
        AssetClass::Index,
        Some("XCME".to_string()),
        "ES".to_string(),
        UnixNanos::new(1_622_842_200_000_000_000),
        UnixNanos::new(1_639_751_400_000_000_000),
        usd(),
        2,
        Price::from_raw(10_000_000, 2),
        Quantity::from_units(1),
        Quantity::from_units(1),
        None,
        None,
        None,
        None,
        None,
        None,
        UnixNanos::new(0),
        UnixNanos::new(1),
    );
    let b = futures_contract_es();
    assert_eq!(a.underlying, b.underlying);
    assert_eq!(a.min_quantity, b.min_quantity);
    assert_eq!(a.margin_maint, b.margin_maint);
    assert_eq!(a.id, b.id);
}

#[test]
fn test_instrument_answers() {
    let c = futures_contract_es();
    assert_eq!(c.id(), es_id());
    assert_eq!(c.raw_symbol(), Symbol::from_str_unchecked("ESZ1".to_string()));
    assert_eq!(c.asset_class(), AssetClass::Index);
    assert_eq!(c.instrument_class(), InstrumentClass::Future);
    assert_eq!(c.underlying(), Some("ES".to_string()));
    assert_eq!(c.base_currency(), None);
    assert_eq!(c.quote_currency(), usd());
    assert_eq!(c.settlement_currency(), usd());
    assert_eq!(c.isin(), None);
    assert_eq!(c.option_kind(), None);
    assert_eq!(c.exchange(), Some("XCME".to_string()));
    assert_eq!(c.strike_price(), None);
    assert_eq!(c.activation_ns(), Some(UnixNanos::new(1_622_842_200_000_000_000)));
    assert_eq!(c.expiration_ns(), Some(UnixNanos::new(1_639_751_400_000_000_000)));
    assert!(!c.is_inverse());
    assert_eq!(c.price_precision(), 2);
    assert_eq!(c.size_precision(), 0);
    assert_eq!(c.price_increment(), Price::from_raw(10_000_000, 2));
    assert_eq!(c.size_increment(), Quantity::from_raw(1_000_000_000, 0));
    assert_eq!(c.multiplier(), Quantity::from_raw(1_000_000_000, 0));
    assert_eq!(c.lot_size(), Some(Quantity::from_raw(1_000_000_000, 0)));
    assert_eq!(c.max_quantity(), None);
    assert_eq!(c.min_quantity(), Some(Quantity::from_raw(1_000_000_000, 0)));
    assert_eq!(c.max_notional(), None);
    assert_eq!(c.min_notional(), None);
    assert_eq!(c.max_price(), None);
    assert_eq!(c.min_price(), None);
    assert_eq!(c.ts_event(), UnixNanos::new(0));
    assert_eq!(c.ts_init(), UnixNanos::new(1));
    match c.clone().into_any() {
        InstrumentAny::FuturesContract(inner) => assert_eq!(inner, c),
        _ => unreachable!(),
    }
}

#[test]
fn test_quantity_and_price() {
    assert_eq!(Quantity::from_units(0).raw, 0);
    assert!(Quantity::from_units(0).is_zero());
    assert_eq!(Quantity::from_units(u32::MAX).raw, 4_294_967_295_000_000_000);
    assert_eq!(Price::from_raw(-5, 9).raw, -5);
}
