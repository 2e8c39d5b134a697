//! Client library for the Coinbase Pro REST exchange API.
//!
//! The library builds every request of the public market-data surface and the
//! authenticated private surface: exact URL strings, the HMAC-SHA256 request
//! signature, and the four authentication headers.  Responses are classified
//! into a transport failure or a decode failure that keeps the raw body text.
//! Monetary values are carried as exact decimal text ([`Decimal`]), never as
//! native floating point.

use vstd::prelude::*;

pub mod book_level;
pub mod decimal;
pub mod digits;
pub mod error;
pub mod market;
pub mod model;
pub mod private;
pub mod sign;

pub use decimal::Decimal;
pub use digits::dec_chars;
pub use digits::int_chars;
pub use error::Error;
pub use market::MarketDataClient;
pub use model::Account;
pub use model::Activity;
pub use model::ActivityDetails;
pub use model::ActivityType;
pub use model::AggregatedBook;
pub use model::Currency;
pub use model::Fill;
pub use model::FullBook;
pub use model::Hold;
pub use model::HoldType;
pub use model::Order;
pub use model::OrderType;
pub use model::Product;
pub use model::Side;
pub use model::Stats;
pub use model::Ticker;
pub use model::Timestamp;
pub use model::Trade;
pub use model::TrailingVolume;
pub use private::now;
pub use private::InvalidSecret;
pub use private::PrivateClient;
pub use private::SignedRequest;

verus! {

/// URL for the sandbox API.
pub const SANDBOX: &'static str = "https://api-public.sandbox.pro.coinbase.com";

/// URL for the live API.
/// Be sure to test your code on the sandbox API before trying the live one.
pub const LIVE: &'static str = "https://api.pro.coinbase.com";

} // verus!
