use market_model::bar::BarSpecification;
use market_model::enums::{AggressorSide, BarAggregation, BookAction, OptionKind, OrderSide, PriceType};
use market_model::identifiers::{InstrumentId, Symbol, Venue};
use market_model::nanos::UnixNanos;
use market_model::tardis::enums::{Exchange, OptionType};
use market_model::tardis::parse::{
    parse_aggressor_side, parse_bar_spec, parse_bar_spec_checked, parse_book_action,
    parse_instrument_id, parse_option_kind, parse_order_side, parse_symbol_str, parse_timestamp,
    BarSpecError,
};

fn instrument_id(symbol: &str, venue: &str) -> InstrumentId {
    InstrumentId::new(
        Symbol::from_str_unchecked(symbol.to_string()),
        Venue::from_str_unchecked(venue),
    )
}

#[test]
fn test_parse_symbol_str_uppercases() {
    assert_eq!(parse_symbol_str("btc-usd"), "BTC-USD");
    assert_eq!(parse_symbol_str("XBTUSD"), "XBTUSD");
    assert_eq!(parse_symbol_str(""), "");
}

#[test]
fn test_parse_instrument_id_okex_futures() {
    let id = parse_instrument_id(&Exchange::OkexFutures, "BTC-USD-200313");
    assert_eq!(id, instrument_id("BTC-USD-200313", "OKEX"));
    assert_eq!(id.to_string(), "BTC-USD-200313.OKEX");
}

#[test]
fn test_parse_instrument_id_binance() {
    let id = parse_instrument_id(&Exchange::Binance, "ETH-USDT");
    assert_eq!(id.to_string(), "ETH-USDT.BINANCE");
}

#[test]
fn test_parse_instrument_id_bitmex() {
    let id = parse_instrument_id(&Exchange::Bitmex, "XBTUSD");
    assert_eq!(id.to_string(), "XBTUSD.BITMEX");
}

#[test]
fn test_parse_instrument_id_huobi() {
    let id = parse_instrument_id(&Exchange::HuobiDmLinearSwap, "FOO-BAR");
    assert_eq!(id.to_string(), "FOO-BAR.HUOBI");
}

#[test]
fn test_parse_instrument_id_uppercases_symbol() {
    let id = parse_instrument_id(&Exchange::Binance, "eth-usdt");
    assert_eq!(id, instrument_id("ETH-USDT", "BINANCE"));
}

#[test]
fn test_parse_order_side() {
    assert_eq!(parse_order_side("bid"), OrderSide::Buy);
    assert_eq!(parse_order_side("ask"), OrderSide::Sell);
    assert_eq!(parse_order_side("unknown"), OrderSide::NoOrderSide);
    assert_eq!(parse_order_side(""), OrderSide::NoOrderSide);
    assert_eq!(parse_order_side("random"), OrderSide::NoOrderSide);
    assert_eq!(parse_order_side("BID"), OrderSide::NoOrderSide);
}

#[test]
fn test_parse_aggressor_side() {
    assert_eq!(parse_aggressor_side("buy"), AggressorSide::Buyer);
    assert_eq!(parse_aggressor_side("sell"), AggressorSide::Seller);
    assert_eq!(parse_aggressor_side("unknown"), AggressorSide::NoAggressor);
    assert_eq!(parse_aggressor_side(""), AggressorSide::NoAggressor);
    assert_eq!(parse_aggressor_side("random"), AggressorSide::NoAggressor);
}

#[test]
fn test_parse_option_kind() {
    assert_eq!(parse_option_kind(OptionType::Call), OptionKind::Call);
    assert_eq!(parse_option_kind(OptionType::Put), OptionKind::Put);
}

#[test]
fn test_parse_timestamp() {
    let input_timestamp: u64 = 1583020803145000;
    assert_eq!(parse_timestamp(input_timestamp), UnixNanos::new(1_583_020_803_145_000_000));
    assert_eq!(parse_timestamp(0), UnixNanos::new(0));
    assert_eq!(parse_timestamp(u64::MAX / 1000).as_u64(), (u64::MAX / 1000) * 1000);
}

#[test]
fn test_parse_book_action() {
    let amounts: [f64; 2] = [10.0, 0.0];
    assert_eq!(parse_book_action(true, amounts[0] == 0.0), BookAction::Add);
    assert_eq!(parse_book_action(false, amounts[1] == 0.0), BookAction::Delete);
    assert_eq!(parse_book_action(false, amounts[0] == 0.0), BookAction::Update);
}

#[test]
fn test_parse_book_action_snapshot_wins_over_zero() {
    assert_eq!(parse_book_action(true, true), BookAction::Add);
}

#[test]
fn test_parse_bar_spec() {
    let cases = [
        ("trade_bar_10ms", 10usize, BarAggregation::Millisecond),
        ("trade_bar_5m", 5, BarAggregation::Minute),
        ("trade_bar_100ticks", 100, BarAggregation::Tick),
        ("trade_bar_100000vol", 100000, BarAggregation::Volume),
        ("trade_bar_30s", 30, BarAggregation::Second),
    ];
    for (value, step, aggregation) in cases {
        let spec = parse_bar_spec(value);
        assert_eq!(spec.step, step);
        assert_eq!(spec.aggregation, aggregation);
        assert_eq!(spec.price_type, PriceType::Last);
        assert_eq!(parse_bar_spec_checked(value), Ok(spec));
    }
}

#[test]
fn test_parse_bar_spec_reads_last_segment_only() {
    assert_eq!(
        parse_bar_spec_checked("10ms"),
        Ok(BarSpecification::new(10, BarAggregation::Millisecond, PriceType::Last))
    );
    assert_eq!(
        parse_bar_spec_checked("5m_007vol"),
        Ok(BarSpecification::new(7, BarAggregation::Volume, PriceType::Last))
    );
}

#[test]
fn test_parse_bar_spec_invalid_suffix() {
    assert_eq!(
        parse_bar_spec_checked("trade_bar_10unknown"),
        Err(BarSpecError::UnsupportedAggregation)
    );
    assert_eq!(parse_bar_spec_checked("trade_bar_10MS"), Err(BarSpecError::UnsupportedAggregation));
}

#[test]
fn test_parse_bar_spec_empty() {
    assert_eq!(parse_bar_spec_checked(""), Err(BarSpecError::InvalidBarSpec));
    assert_eq!(parse_bar_spec_checked("trade_bar_"), Err(BarSpecError::InvalidBarSpec));
    assert_eq!(parse_bar_spec_checked("trade_bar_10"), Err(BarSpecError::InvalidBarSpec));
}

#[test]
fn test_parse_bar_spec_invalid_step() {
    assert_eq!(parse_bar_spec_checked("trade_bar_notanumberms"), Err(BarSpecError::InvalidStep));
    assert_eq!(parse_bar_spec_checked("trade_bar_ms"), Err(BarSpecError::InvalidStep));
    assert_eq!(
        parse_bar_spec_checked("trade_bar_99999999999999999999999999ms"),
        Err(BarSpecError::InvalidStep)
    );
}

#[test]
fn test_exchange_venues() {
    assert_eq!(Exchange::BinanceFutures.as_venue_str(), "BINANCE");
    assert_eq!(Exchange::Deribit.as_venue().as_str(), "DERIBIT");
    assert_eq!(Exchange::OkexSwap.as_venue(), Venue::from_str_unchecked("OKEX"));
}
