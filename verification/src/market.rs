//! The unauthenticated market-data surface.
//!
//! Every method is a pure GET with no signing, and every method here is a
//! thin composition with no branching beyond URL construction: it returns
//! the exact URL string for one endpoint, pinned character by character in
//! its contract.  Issuing the request and decoding its body belong to the
//! transport around the library.

use vstd::prelude::*;

use crate::book_level::BookLevel;
use crate::digits::dec_chars;
use crate::digits::u64_to_string;
use crate::model::Timestamp;

verus! {

/// The RFC 3339 rendering of an instant with millisecond precision and a
/// `Z` suffix.
pub uninterp spec fn rfc3339_millis_chars(epoch_millis: int) -> Seq<char>;

/// Relies on chrono's `DateTime::from_timestamp_millis` and
/// `to_rfc3339_opts(SecondsFormat::Millis, true)`: the text is a function of
/// the instant alone, and the instant is in chrono's documented range.
#[verifier::external_body]
pub(crate) fn rfc3339_millis(epoch_millis: i64) -> (r: String)
    requires
        0 <= epoch_millis <= 253402300799999,
    ensures
        r@ == rfc3339_millis_chars(epoch_millis as int),
{
    let instant = chrono::DateTime::<chrono::Utc>::from_timestamp_millis(epoch_millis)
        .expect("instant is within chrono's range");
    instant.to_rfc3339_opts(chrono::SecondsFormat::Millis, true)
}

/// Client for the unauthenticated market data API: it builds the URL of
/// each endpoint from the base chosen at construction.
pub struct MarketDataClient {
    base: String,
}

impl MarketDataClient {
    /// The base URL every request of this client starts with.
    pub closed spec fn base_spec(&self) -> Seq<char> {
        self.base@
    }

    /// Creates a new client.
    /// The `base` argument should be [`crate::SANDBOX`] or [`crate::LIVE`].
    pub fn new(base: &str) -> (c: Self)
        ensures
            c.base_spec() == base@,
    {
        MarketDataClient { base: String::from_str(base) }
    }

    /// URL that retrieves the list of available currency pairs for trading.
    pub fn products(&self) -> (uri: String)
        ensures
            uri@ == self.base_spec() + "/products"@,
    {
        let mut uri = String::from_str(self.base.as_str());
        uri.append("/products");
        uri
    }

    /// URL that retrieves the book of open orders for a product.
    /// The amount of detail depends on the level argument:
    /// - [`crate::book_level::Best`] shows only the best bid and ask.
    /// - [`crate::book_level::Top50`] shows the top 50 aggregated bids and asks.
    /// - [`crate::book_level::Full`] shows the full non aggregated order book.
    ///
    /// The response decodes into the one book shape `T` tied to the level.
    pub fn book<T, L: BookLevel<T>>(&self, product_id: &str, level: &L) -> (uri: String)
        ensures
            uri@ == self.base_spec() + "/products/"@ + product_id@ + "/book?"@ + L::fragment(),
    {
        let mut uri = String::from_str(self.base.as_str());
        uri.append("/products/");
        uri.append(product_id);
        uri.append("/book?");
        uri.append(level.to_str());
        uri
    }

    /// URL that retrieves information about the last trade (tick), best
    /// bid/ask and 24h volume.
    pub fn ticker(&self, product_id: &str) -> (uri: String)
        ensures
            uri@ == self.base_spec() + "/products/"@ + product_id@ + "/ticker"@,
    {
        let mut uri = String::from_str(self.base.as_str());
        uri.append("/products/");
        uri.append(product_id);
        uri.append("/ticker");
        uri
    }

    /// URL that lists the latest trades for a product.
    pub fn trades(&self, product_id: &str) -> (uri: String)
        ensures
            uri@ == self.base_spec() + "/products/"@ + product_id@ + "/trades"@,
    {
        let mut uri = String::from_str(self.base.as_str());
        uri.append("/products/");
        uri.append(product_id);
        uri.append("/trades");
        uri
    }

    /// URL that retrieves historic rates for a product between `start` and
    /// `end`, bucketed by `granularity_secs`.
    /// `granularity_secs` must be one of { 60, 300, 900, 3600, 21600, 86400 };
    /// a request producing more than 300 data points is rejected by the
    /// remote service, not locally.
    pub fn candles(
        &self,
        product_id: &str,
        start: &Timestamp,
        end: &Timestamp,
        granularity_secs: u64,
    ) -> (uri: String)
        requires
            start.renderable(),
            end.renderable(),
        ensures
            uri@ == self.base_spec() + "/products/"@ + product_id@ + "/candles?start="@
                + rfc3339_millis_chars(start.epoch_millis as int) + "&end="@
                + rfc3339_millis_chars(end.epoch_millis as int) + "&granularity="@
                + dec_chars(granularity_secs as nat),
    {
        let mut uri = String::from_str(self.base.as_str());
        uri.append("/products/");
        uri.append(product_id);
        uri.append("/candles?start=");
        uri.append(rfc3339_millis(start.epoch_millis).as_str());
        uri.append("&end=");
        uri.append(rfc3339_millis(end.epoch_millis).as_str());
        uri.append("&granularity=");
        uri.append(u64_to_string(granularity_secs).as_str());
        uri
    }

    /// URL that retrieves the latest 300 data points, bucketed by
    /// `granularity_secs`.
    pub fn latest_candles(&self, product_id: &str, granularity_secs: u64) -> (uri: String)
        ensures
            uri@ == self.base_spec() + "/products/"@ + product_id@ + "/candles?granularity="@
                + dec_chars(granularity_secs as nat),
    {
        let mut uri = String::from_str(self.base.as_str());
        uri.append("/products/");
        uri.append(product_id);
        uri.append("/candles?granularity=");
        uri.append(u64_to_string(granularity_secs).as_str());
        uri
    }

    /// URL that retrieves 24 hr stats for the product.
    pub fn stats(&self, product_id: &str) -> (uri: String)
        ensures
            uri@ == self.base_spec() + "/products/"@ + product_id@ + "/stats"@,
    {
        let mut uri = String::from_str(self.base.as_str());
        uri.append("/products/");
        uri.append(product_id);
        uri.append("/stats");
        uri
    }

    /// URL that lists known currencies.
    pub fn currencies(&self) -> (uri: String)
        ensures
            uri@ == self.base_spec() + "/currencies"@,
    {
        let mut uri = String::from_str(self.base.as_str());
        uri.append("/currencies");
        uri
    }

    /// URL that gets the API server time.
    pub fn time(&self) -> (uri: String)
        ensures
            uri@ == self.base_spec() + "/time"@,
    {
        let mut uri = String::from_str(self.base.as_str());
        uri.append("/time");
        uri
    }
}

} // verus!
