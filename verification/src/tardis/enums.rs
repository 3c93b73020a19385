//! The enumerations of the Tardis feed.

use crate::identifiers::Venue;
use vstd::prelude::*;

verus! {

/// An exchange that Tardis records. Several exchanges may belong to one venue.
#[derive(Clone, Copy, Debug, PartialEq, Eq, Structural, Hash)]
pub enum Exchange {
    Ascendex,
    Binance,
    BinanceDelivery,
    BinanceDex,
    BinanceFutures,
    BinanceJersey,
    BinanceOptions,
    BinanceUs,
    Bitfinex,
    BitfinexDerivatives,
    Bitflyer,
    Bitmex,
    Bitnomial,
    Bitstamp,
    BlockchainCom,
    Bybit,
    BybitOptions,
    BybitSpot,
    Coinbase,
    Coinflex,
    CryptoCom,
    CryptoComDerivatives,
    Cryptofacilities,
    Delta,
    Deribit,
    Dydx,
    Ftx,
    FtxUs,
    GateIo,
    GateIoFutures,
    Gemini,
    Hitbtc,
    Huobi,
    HuobiDm,
    HuobiDmLinearSwap,
    HuobiDmOptions,
    HuobiDmSwap,
    Kraken,
    Kucoin,
    Mango,
    Okcoin,
    Okex,
    OkexFutures,
    OkexOptions,
    OkexSwap,
    Phemex,
    Poloniex,
    Serum,
    StarAtlas,
    Upbit,
    WooX,
}

/// The kind of an option as Tardis names it.
#[derive(Clone, Copy, Debug, PartialEq, Eq, Structural, Hash)]
pub enum OptionType {
    Call,
    Put,
}

impl Exchange {
    /// The name of the venue that the exchange belongs to.
    pub open spec fn venue_name(&self) -> Seq<char> {
        self.venue_str()@
    }

    /// The name of the venue that the exchange belongs to.
    pub open spec fn venue_str(&self) -> &'static str {
        match self {
            Exchange::Ascendex => "ASCENDEX",
            Exchange::Binance
            | Exchange::BinanceDelivery
            | Exchange::BinanceDex
            | Exchange::BinanceFutures
            | Exchange::BinanceJersey
            | Exchange::BinanceOptions
            | Exchange::BinanceUs => "BINANCE",
            Exchange::Bitfinex | Exchange::BitfinexDerivatives => "BITFINEX",
            Exchange::Bitflyer => "BITFLYER",
            Exchange::Bitmex => "BITMEX",
            Exchange::Bitnomial => "BITNOMIAL",
            Exchange::Bitstamp => "BITSTAMP",
            Exchange::BlockchainCom => "BLOCKCHAIN_COM",
            Exchange::Bybit | Exchange::BybitOptions | Exchange::BybitSpot => "BYBIT",
            Exchange::Coinbase => "COINBASE",
            Exchange::Coinflex => "COINFLEX",
            Exchange::CryptoCom | Exchange::CryptoComDerivatives => "CRYPTO_COM",
            Exchange::Cryptofacilities => "CRYPTOFACILITIES",
            Exchange::Delta => "DELTA",
            Exchange::Deribit => "DERIBIT",
            Exchange::Dydx => "DYDX",
            Exchange::Ftx | Exchange::FtxUs => "FTX",
            Exchange::GateIo | Exchange::GateIoFutures => "GATE_IO",
            Exchange::Gemini => "GEMINI",
            Exchange::Hitbtc => "HITBTC",
            Exchange::Huobi
            | Exchange::HuobiDm
            | Exchange::HuobiDmLinearSwap
            | Exchange::HuobiDmOptions
            | Exchange::HuobiDmSwap => "HUOBI",
            Exchange::Kraken => "KRAKEN",
            Exchange::Kucoin => "KUCOIN",
            Exchange::Mango => "MANGO",
            Exchange::Okcoin => "OKCOIN",
            Exchange::Okex
            | Exchange::OkexFutures
            | Exchange::OkexOptions
            | Exchange::OkexSwap => "OKEX",
            Exchange::Phemex => "PHEMEX",
            Exchange::Poloniex => "POLONIEX",
            Exchange::Serum => "SERUM",
            Exchange::StarAtlas => "STARATLAS",
            Exchange::Upbit => "UPBIT",
            Exchange::WooX => "WOOX",
        }
    }

    /// The name of the venue that the exchange belongs to.
    pub fn as_venue_str(&self) -> (r: &'static str)
        ensures
            r@ == self.venue_name(),
    {
        match self {
            Exchange::Ascendex => "ASCENDEX",
            Exchange::Binance
            | Exchange::BinanceDelivery
            | Exchange::BinanceDex
            | Exchange::BinanceFutures
            | Exchange::BinanceJersey
            | Exchange::BinanceOptions
            | Exchange::BinanceUs => "BINANCE",
            Exchange::Bitfinex | Exchange::BitfinexDerivatives => "BITFINEX",
            Exchange::Bitflyer => "BITFLYER",
            Exchange::Bitmex => "BITMEX",
            Exchange::Bitnomial => "BITNOMIAL",
            Exchange::Bitstamp => "BITSTAMP",
            Exchange::BlockchainCom => "BLOCKCHAIN_COM",
            Exchange::Bybit | Exchange::BybitOptions | Exchange::BybitSpot => "BYBIT",
            Exchange::Coinbase => "COINBASE",
            Exchange::Coinflex => "COINFLEX",
            Exchange::CryptoCom | Exchange::CryptoComDerivatives => "CRYPTO_COM",
            Exchange::Cryptofacilities => "CRYPTOFACILITIES",
            Exchange::Delta => "DELTA",
            Exchange::Deribit => "DERIBIT",
            Exchange::Dydx => "DYDX",
            Exchange::Ftx | Exchange::FtxUs => "FTX",
            Exchange::GateIo | Exchange::GateIoFutures => "GATE_IO",
            Exchange::Gemini => "GEMINI",
            Exchange::Hitbtc => "HITBTC",
            Exchange::Huobi
            | Exchange::HuobiDm
            | Exchange::HuobiDmLinearSwap
            | Exchange::HuobiDmOptions
            | Exchange::HuobiDmSwap => "HUOBI",
            Exchange::Kraken => "KRAKEN",
            Exchange::Kucoin => "KUCOIN",
            Exchange::Mango => "MANGO",
            Exchange::Okcoin => "OKCOIN",
            Exchange::Okex
            | Exchange::OkexFutures
            | Exchange::OkexOptions
            | Exchange::OkexSwap => "OKEX",
            Exchange::Phemex => "PHEMEX",
            Exchange::Poloniex => "POLONIEX",
            Exchange::Serum => "SERUM",
            Exchange::StarAtlas => "STARATLAS",
            Exchange::Upbit => "UPBIT",
            Exchange::WooX => "WOOX",
        }
    }

    /// The venue that the exchange belongs to.
    pub fn as_venue(&self) -> (r: Venue)
        ensures
            r@ == self.venue_name(),
    {
        Venue::from_str_unchecked(self.as_venue_str())
    }
}

} // verus!
