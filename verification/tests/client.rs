use coinbase_api::book_level::Best;
use coinbase_api::book_level::BookLevel;
use coinbase_api::book_level::Full;
use coinbase_api::book_level::Top50;
use coinbase_api::error::http_failure;
use coinbase_api::error::json_failure;
use coinbase_api::AggregatedBook;
use coinbase_api::Decimal;
use coinbase_api::Error;
use coinbase_api::FullBook;
use coinbase_api::MarketDataClient;
use coinbase_api::PrivateClient;
use coinbase_api::Timestamp;
use coinbase_api::LIVE;
use coinbase_api::SANDBOX;

// Base64 of the 32-byte key b"0123456789abcdef0123456789abcdef".
const SECRET: &str = "MDEyMzQ1Njc4OWFiY2RlZjAxMjM0NTY3ODlhYmNkZWY=";

fn private_client() -> PrivateClient {
    PrivateClient::new(
        SANDBOX,
        String::from("my-key"),
        String::from(SECRET),
        String::from("my-passphrase"),
    )
    .expect("secret is valid base64")
}

#[test]
fn decimal_keeps_wire_text() {
    let d = Decimal::from_text(String::from("0.001"));
    assert_eq!(d.text(), "0.001");
    let d = Decimal::from_text(String::from("10000"));
    assert_eq!(d.text(), "10000");
}

#[test]
fn decimal_from_unsigned_integers() {
    assert_eq!(Decimal::from_u64(0).text(), "0");
    assert_eq!(Decimal::from_u64(7).text(), "7");
    assert_eq!(Decimal::from_u64(12345).text(), "12345");
    assert_eq!(Decimal::from_u64(u64::MAX).text(), "18446744073709551615");
    assert_eq!(Decimal::from_u32(4294967295).text(), "4294967295");
    assert_eq!(Decimal::from_u16(65535).text(), "65535");
    assert_eq!(Decimal::from_u8(255).text(), "255");
    assert_eq!(Decimal::from_usize(100).text(), "100");
}

#[test]
fn decimal_from_signed_integers() {
    assert_eq!(Decimal::from_i64(0).text(), "0");
    assert_eq!(Decimal::from_i64(-1).text(), "-1");
    assert_eq!(Decimal::from_i64(-987).text(), "-987");
    assert_eq!(Decimal::from_i64(i64::MIN).text(), "-9223372036854775808");
    assert_eq!(Decimal::from_i64(i64::MAX).text(), "9223372036854775807");
    assert_eq!(Decimal::from_i32(-2147483648).text(), "-2147483648");
    assert_eq!(Decimal::from_i16(-32768).text(), "-32768");
    assert_eq!(Decimal::from_i8(-128).text(), "-128");
    assert_eq!(Decimal::from_isize(-5).text(), "-5");
}

#[test]
fn signature_matches_known_vector() {
    // Computed independently: base64(HMAC-SHA256(key, "1600000000GET/accounts"))
    // with key = base64-decoded SECRET.
    let client = private_client();
    assert_eq!(
        client.sign(1600000000, "GET", "/accounts", ""),
        "VEIT/cCZIdvNfMcC+8Bt5ddpJQlROBFnz+LCTeKXJgg="
    );
}

#[test]
fn signature_is_deterministic() {
    let client = private_client();
    let first = client.sign(1600000000, "GET", "/accounts", "");
    let second = client.sign(1600000000, "GET", "/accounts", "");
    assert_eq!(first, second);
}

#[test]
fn signature_changes_with_each_input() {
    let client = private_client();
    let base = client.sign(1600000000, "GET", "/accounts", "");
    assert_ne!(base, client.sign(1600000001, "GET", "/accounts", ""));
    assert_ne!(base, client.sign(1600000000, "POST", "/accounts", ""));
    assert_ne!(base, client.sign(1600000000, "GET", "/orders?status=all", ""));
    assert_ne!(base, client.sign(1600000000, "GET", "/accounts", "x"));
    let other_key = PrivateClient::new(
        SANDBOX,
        String::from("my-key"),
        // Base64 of a key differing in its last byte.
        String::from("MDEyMzQ1Njc4OWFiY2RlZjAxMjM0NTY3ODlhYmNkZWc="),
        String::from("my-passphrase"),
    )
    .expect("secret is valid base64");
    assert_eq!(
        other_key.sign(1600000000, "GET", "/accounts", ""),
        "fFDDv5gTBmoZjdqKATwn7PVtvnRVcJbGhVac74uO9LI="
    );
    assert_ne!(base, other_key.sign(1600000000, "GET", "/accounts", ""));
}

#[test]
fn invalid_secret_fails_at_construction() {
    let result = PrivateClient::new(
        SANDBOX,
        String::from("my-key"),
        String::from("this is not base64!!!"),
        String::from("my-passphrase"),
    );
    assert!(result.is_err());
}

#[test]
fn valid_secret_constructs() {
    let result = PrivateClient::new(
        LIVE,
        String::from("my-key"),
        String::from(SECRET),
        String::from("my-passphrase"),
    );
    assert!(result.is_ok());
}

#[test]
fn book_levels_have_exactly_three_fragments() {
    assert_eq!(BookLevel::<AggregatedBook>::to_str(&Best()), "level=1");
    assert_eq!(BookLevel::<AggregatedBook>::to_str(&Top50()), "level=2");
    assert_eq!(BookLevel::<FullBook>::to_str(&Full()), "level=3");
}

#[test]
fn book_url_couples_level_and_shape() {
    let client = MarketDataClient::new(SANDBOX);
    // Best and Top50 request the aggregated shape, Full the full shape; the
    // pairing is fixed by the types at the call site.
    let best: String = client.book::<AggregatedBook, Best>("BTC-USD", &Best());
    let top50: String = client.book::<AggregatedBook, Top50>("BTC-USD", &Top50());
    let full: String = client.book::<FullBook, Full>("BTC-USD", &Full());
    assert_eq!(
        best,
        "https://api-public.sandbox.pro.coinbase.com/products/BTC-USD/book?level=1"
    );
    assert_eq!(
        top50,
        "https://api-public.sandbox.pro.coinbase.com/products/BTC-USD/book?level=2"
    );
    assert_eq!(
        full,
        "https://api-public.sandbox.pro.coinbase.com/products/BTC-USD/book?level=3"
    );
}

#[test]
fn market_data_urls() {
    let client = MarketDataClient::new(LIVE);
    assert_eq!(client.products(), "https://api.pro.coinbase.com/products");
    assert_eq!(
        client.ticker("BTC-USD"),
        "https://api.pro.coinbase.com/products/BTC-USD/ticker"
    );
    assert_eq!(
        client.trades("ETH-USD"),
        "https://api.pro.coinbase.com/products/ETH-USD/trades"
    );
    assert_eq!(
        client.stats("BTC-USD"),
        "https://api.pro.coinbase.com/products/BTC-USD/stats"
    );
    assert_eq!(client.currencies(), "https://api.pro.coinbase.com/currencies");
    assert_eq!(client.time(), "https://api.pro.coinbase.com/time");
    assert_eq!(
        client.latest_candles("BTC-USD", 300),
        "https://api.pro.coinbase.com/products/BTC-USD/candles?granularity=300"
    );
}

#[test]
fn candles_url_renders_rfc3339_instants() {
    let client = MarketDataClient::new(LIVE);
    let start = Timestamp { epoch_millis: 1600000000000 };
    let end = Timestamp { epoch_millis: 1600086400123 };
    assert_eq!(
        client.candles("BTC-USD", &start, &end, 3600),
        "https://api.pro.coinbase.com/products/BTC-USD/candles?\
         start=2020-09-13T12:26:40.000Z&end=2020-09-14T12:26:40.123Z&granularity=3600"
    );
}

#[test]
fn private_get_builds_exact_request() {
    let client = private_client();
    let r = client.get_at(1600000000, "/accounts");
    assert_eq!(
        r.uri,
        "https://api-public.sandbox.pro.coinbase.com/accounts"
    );
    assert_eq!(r.key, "my-key");
    assert_eq!(r.passphrase, "my-passphrase");
    assert_eq!(r.timestamp, "1600000000");
    assert_eq!(r.signature, "VEIT/cCZIdvNfMcC+8Bt5ddpJQlROBFnz+LCTeKXJgg=");
}

#[test]
fn private_endpoint_queries() {
    let client = private_client();
    let base = "https://api-public.sandbox.pro.coinbase.com";
    assert_eq!(client.accounts().uri, format!("{base}/accounts"));
    assert_eq!(client.account("a1").uri, format!("{base}/accounts/a1"));
    assert_eq!(client.ledger("a1").uri, format!("{base}/accounts/a1/ledger"));
    assert_eq!(client.holds("a1").uri, format!("{base}/accounts/a1/holds"));
    assert_eq!(client.orders().uri, format!("{base}/orders?status=all"));
    assert_eq!(
        client.orders_for_product("BTC-USD").uri,
        format!("{base}/orders?status=all&product_id=BTC-USD")
    );
    assert_eq!(client.order("o1").uri, format!("{base}/orders/o1"));
    assert_eq!(client.fills().uri, format!("{base}/fills"));
    assert_eq!(
        client.fills_for_product("BTC-USD").uri,
        format!("{base}/fills?product_id=BTC-USD")
    );
    assert_eq!(
        client.fills_for_order("o1").uri,
        format!("{base}/fills?order_id=o1")
    );
    assert_eq!(
        client.trailing_volume().uri,
        format!("{base}/users/self/trailing-volume")
    );
}

#[test]
fn private_request_signs_its_own_timestamp() {
    let client = private_client();
    let r = client.accounts();
    let timestamp: u64 = r.timestamp.parse().expect("timestamp header is decimal");
    let expected = client.sign(timestamp, "GET", "/accounts", "");
    assert_eq!(r.signature, expected);
}

#[test]
fn decode_failure_keeps_valid_utf8_text() {
    let body = b"{\"message\":\"invalid signature\"}".to_vec();
    let e = json_failure(String::from("expected a list"), body);
    match e {
        Error::JsonError(detail, text) => {
            assert_eq!(detail, "expected a list");
            assert_eq!(text.unwrap(), "{\"message\":\"invalid signature\"}");
        }
        Error::HttpError(_) => panic!("wrong error kind"),
    }
}

#[test]
fn decode_failure_keeps_invalid_utf8_bytes() {
    let body = vec![0xff_u8, 0xfe, 0x41];
    let e = json_failure(String::from("expected a list"), body.clone());
    match e {
        Error::JsonError(_, text) => {
            assert_eq!(text.unwrap_err(), body);
        }
        Error::HttpError(_) => panic!("wrong error kind"),
    }
}

#[test]
fn transport_failure_keeps_cause() {
    let e = http_failure(String::from("connection refused"));
    match e {
        Error::HttpError(cause) => assert_eq!(cause, "connection refused"),
        Error::JsonError(_, _) => panic!("wrong error kind"),
    }
}

#[test]
fn clock_reads() {
    assert!(coinbase_api::now() > 0);
}
