//! The data model of the exchange.
//!
//! Flat records mirroring the exchange's JSON schema: immutable value
//! objects created by decoding a response and owned by the caller.  Every
//! monetary or quantity field is a [`Decimal`]; every instant is a
//! [`Timestamp`]; enumerated fields are closed sets.

use vstd::prelude::*;

use crate::decimal::Decimal;

verus! {

/// A timezone-aware instant: milliseconds since the Unix epoch, UTC.
#[derive(Debug, Clone, Copy, PartialEq, Eq, Structural)]
pub struct Timestamp {
    pub epoch_millis: i64,
}

impl Timestamp {
    /// Instants the RFC 3339 rendering is defined for: from the epoch
    /// through the last millisecond of year 9999.
    pub open spec fn renderable(&self) -> bool {
        0 <= self.epoch_millis <= 253402300799999
    }
}

/// Description of a currency pair.
#[derive(Debug)]
pub struct Product {
    pub id: String,
    pub base_currency: String,
    pub quote_currency: String,
    pub base_min_size: Decimal,
    pub base_max_size: Decimal,
    pub quote_increment: Decimal,
}

/// Aggregated book of orders.
#[derive(Debug)]
pub struct AggregatedBook {
    pub sequence: u64,
    /// List of (price, size, num-orders).
    pub bids: Vec<(Decimal, Decimal, u64)>,
    pub asks: Vec<(Decimal, Decimal, u64)>,
}

/// Non aggregated book of orders.
#[derive(Debug)]
pub struct FullBook {
    pub sequence: u64,
    /// List of (price, size, order_id).
    pub bids: Vec<(Decimal, Decimal, String)>,
    pub asks: Vec<(Decimal, Decimal, String)>,
}

/// Information about the last trade (tick), best bid/ask and 24h volume.
#[derive(Debug)]
pub struct Ticker {
    pub trade_id: u64,
    pub price: Decimal,
    pub size: Decimal,
    pub bid: Decimal,
    pub ask: Decimal,
    pub volume: Decimal,
    pub time: Timestamp,
}

/// Side of a trade or order.
#[derive(Debug, Clone, Copy, PartialEq, Eq, Structural)]
pub enum Side {
    Buy,
    Sell,
}

/// Description of a trade.
#[derive(Debug)]
pub struct Trade {
    pub time: Timestamp,
    pub trade_id: u64,
    pub price: Decimal,
    pub size: Decimal,
    /// Maker order side (buy indicates a down-tick and sell an up-tick).
    pub side: Side,
}

/// Trading stats for a product.
/// `volume` is in base currency units. `open`, `high`, `low` are in quote currency units.
#[derive(Debug)]
pub struct Stats {
    pub open: Decimal,
    pub high: Decimal,
    pub low: Decimal,
    pub volume: Decimal,
}

/// Currency description.
#[derive(Debug)]
pub struct Currency {
    pub id: String,
    pub name: String,
    pub min_size: Decimal,
}

/// Description of a trading account.
#[derive(Debug)]
pub struct Account {
    pub id: String,
    pub currency: String,
    pub balance: Decimal,
    pub available: Decimal,
    pub hold: Decimal,
    pub profile_id: String,
}

/// Kind of a ledger entry.
#[derive(Debug, Clone, Copy, PartialEq, Eq, Structural)]
pub enum ActivityType {
    Transfer,
    Match,
    Fee,
    Rebate,
}

/// References attached to a ledger entry.
#[derive(Debug)]
pub struct ActivityDetails {
    pub order_id: Option<String>,
    pub trade_id: Option<String>,
    pub product_id: Option<String>,
    pub transfer_id: Option<String>,
    pub transfer_type: Option<String>,
}

/// One ledger entry of an account.
#[derive(Debug)]
pub struct Activity {
    pub id: u64,
    pub created_at: Timestamp,
    pub amount: Decimal,
    pub balance: Decimal,
    pub activity_type: ActivityType,
    pub details: ActivityDetails,
}

/// Kind of a hold on an account.
#[derive(Debug, Clone, Copy, PartialEq, Eq, Structural)]
pub enum HoldType {
    Order,
    Transfer,
}

/// An amount held for an open order or a pending transfer.
#[derive(Debug)]
pub struct Hold {
    pub id: String,
    pub created_at: Timestamp,
    pub updated_at: Option<Timestamp>,
    pub amount: Decimal,
    pub hold_type: HoldType,
    pub hold_ref: String,
}

/// Kind of an order.
#[derive(Debug, Clone, Copy, PartialEq, Eq, Structural)]
pub enum OrderType {
    Limit,
    Market,
}

/// An order of the account.
#[derive(Debug)]
pub struct Order {
    pub id: String,
    pub price: Option<Decimal>,
    pub size: Option<Decimal>,
    pub product_id: String,
    pub side: Side,
    pub stp: Option<String>,
    pub funds: Option<Decimal>,
    pub specified_funds: Option<Decimal>,
    pub order_type: OrderType,
    pub time_in_force: Option<String>,
    pub post_only: bool,
    pub created_at: Timestamp,
    pub done_at: Option<Timestamp>,
    pub done_reason: Option<String>,
    pub fill_fees: Decimal,
    pub filled_size: Decimal,
    pub executed_value: Decimal,
    pub status: String,
    pub settled: bool,
}

/// A fill of one of the account's orders.
#[derive(Debug)]
pub struct Fill {
    pub trade_id: u64,
    pub product_id: String,
    pub price: Decimal,
    pub size: Decimal,
    pub order_id: String,
    pub created_at: Timestamp,
    pub liquidity: String,
    pub fee: Decimal,
    pub settled: bool,
    pub side: Side,
}

/// 30-day trailing volume of the account on one product.
#[derive(Debug)]
pub struct TrailingVolume {
    pub product_id: String,
    pub exchange_volume: Decimal,
    pub volume: Decimal,
    pub recorded_at: Timestamp,
}

} // verus!
