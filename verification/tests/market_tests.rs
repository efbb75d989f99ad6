use gdax_client::market::{
    currencies_url, historic_rates_url, order_book_url, products_url, stats_url,
    status_is_success, ticker_url, time_url, trades_url, BookEntry, Currency, FullBookEntry,
    OrderBook, Product, Stats, Tick, Timestamp, Trade,
};
use gdax_client::numeric::{dec_of_u64, parse_u64};
use gdax_client::{ApiError, Error, Side};

#[test]
fn fixed_urls() {
    assert_eq!(products_url(), "https://api.gdax.com/products");
    assert_eq!(currencies_url(), "https://api.gdax.com/currencies");
    assert_eq!(time_url(), "https://api.gdax.com/time");
}

#[test]
fn product_urls() {
    assert_eq!(ticker_url("BTC-USD"), "https://api.gdax.com/products/BTC-USD/ticker");
    assert_eq!(trades_url("ETH-USD"), "https://api.gdax.com/products/ETH-USD/trades");
    assert_eq!(stats_url("BTC-USD"), "https://api.gdax.com/products/BTC-USD/stats");
}

#[test]
fn order_book_url_accepts_levels_one_to_three() {
    for level in 1..=3u8 {
        let url = order_book_url("BTC-USD", level).unwrap();
        assert_eq!(
            url,
            format!("https://api.gdax.com/products/BTC-USD/book?level={}", level)
        );
    }
}

#[test]
fn order_book_url_rejects_other_levels() {
    for level in [0u8, 4, 255] {
        match order_book_url("BTC-USD", level) {
            Err(Error::InvalidArgument(m)) => {
                assert_eq!(m, "Orderbook level must be 1,2, or 3")
            }
            _ => panic!("level {} must be rejected", level),
        }
    }
}

#[test]
fn historic_rates_url_renders_rfc3339_endpoints() {
    let start = Timestamp { secs: 0, nanos: 0 };
    let end = Timestamp { secs: 1483228800, nanos: 0 };
    let url = historic_rates_url("BTC-USD", &start, &end, 3600).unwrap();
    assert_eq!(
        url,
        "https://api.gdax.com/products/BTC-USD/candles?\
         start=1970-01-01T00:00:00+00:00&end=2017-01-01T00:00:00+00:00&granularity=3600"
    );
}

#[test]
fn historic_rates_url_renders_subsecond_parts() {
    let start = Timestamp { secs: 1, nanos: 500_000_000 };
    let end = Timestamp { secs: 2, nanos: 0 };
    let url = historic_rates_url("ETH-USD", &start, &end, 60).unwrap();
    assert_eq!(
        url,
        "https://api.gdax.com/products/ETH-USD/candles?\
         start=1970-01-01T00:00:01.500+00:00&end=1970-01-01T00:00:02+00:00&granularity=60"
    );
}

#[test]
fn status_codes() {
    assert!(!status_is_success(199));
    assert!(status_is_success(200));
    assert!(status_is_success(299));
    assert!(!status_is_success(300));
    assert!(!status_is_success(404));
}

#[test]
fn decimal_formatting() {
    assert_eq!(dec_of_u64(0), "0");
    assert_eq!(dec_of_u64(7), "7");
    assert_eq!(dec_of_u64(10), "10");
    assert_eq!(dec_of_u64(1006), "1006");
    assert_eq!(dec_of_u64(u64::MAX), "18446744073709551615");
}

#[test]
fn decimal_parsing() {
    assert_eq!(parse_u64("0"), Some(0));
    assert_eq!(parse_u64("42"), Some(42));
    assert_eq!(parse_u64("007"), Some(7));
    assert_eq!(parse_u64("18446744073709551615"), Some(u64::MAX));
    assert_eq!(parse_u64("18446744073709551616"), None);
    assert_eq!(parse_u64(""), None);
    assert_eq!(parse_u64("12a"), None);
    assert_eq!(parse_u64("-1"), None);
    assert_eq!(parse_u64("4.2"), None);
}

#[test]
fn side_wire_names() {
    assert_eq!(Side::Buy.to_wire(), "buy");
    assert_eq!(Side::Sell.to_wire(), "sell");
}

#[test]
fn side_parsing_ignores_ascii_case() {
    assert_eq!(Side::from_wire("buy").unwrap(), Side::Buy);
    assert_eq!(Side::from_wire("BUY").unwrap(), Side::Buy);
    assert_eq!(Side::from_wire("Sell").unwrap(), Side::Sell);
    assert_eq!(Side::from_wire("sELL").unwrap(), Side::Sell);
}

#[test]
fn side_parsing_rejects_other_text() {
    match Side::from_wire("hold") {
        Err(Error::InvalidArgument(m)) => {
            assert_eq!(m, "side must be either `buy` or `sell`")
        }
        _ => panic!("an unknown side must be rejected"),
    }
}

#[test]
fn api_error_keeps_its_message() {
    let e = ApiError::new(String::from("NotFound"));
    assert_eq!(e.message(), "NotFound");
}

#[test]
fn records_hold_plain_values() {
    let p = Product {
        id: String::from("BTC-USD"),
        base_currency: String::from("BTC"),
        quote_currency: String::from("USD"),
        base_min_size: String::from("0.001"),
        base_max_size: String::from("10000"),
        quote_increment: String::from("0.01"),
    };
    assert_eq!(p.id, "BTC-USD");

    let book = OrderBook::<BookEntry> {
        sequence: 3,
        bids: vec![BookEntry {
            price: String::from("295.96"),
            size: String::from("4.39"),
            num_orders: 2,
        }],
        asks: vec![],
    };
    assert_eq!(book.bids[0].num_orders, 2);

    let full = FullBookEntry {
        price: String::from("295.97"),
        size: String::from("1.00"),
        order_id: uuid::Uuid::nil(),
    };
    assert!(full.order_id.is_nil());

    let tick = Tick {
        trade_id: 4729088,
        price: String::from("333.99"),
        size: String::from("0.193"),
        bid: String::from("333.98"),
        ask: String::from("333.99"),
        volume: String::from("5957.11"),
        time: Timestamp { secs: 1483228800, nanos: 0 },
    };
    assert_eq!(tick.time.secs, 1483228800);

    let trade = Trade {
        time: Timestamp { secs: 1483228800, nanos: 0 },
        trade_id: 74,
        price: String::from("10.00"),
        size: String::from("0.01"),
        side: Side::Buy,
    };
    assert_eq!(trade.side, Side::Buy);

    let stats = Stats {
        open: String::from("34.19"),
        high: String::from("95.70"),
        low: String::from("7.06"),
        volume: String::from("2.41"),
    };
    assert_eq!(stats.high, "95.70");

    let c = Currency {
        id: String::from("USD"),
        name: String::from("United States Dollar"),
        min_size: String::from("0.01"),
    };
    assert_eq!(c.id, "USD");
}

#[test]
fn side_labels() {
    assert_eq!(Side::Buy.label(), "Buy");
    assert_eq!(Side::Sell.label(), "Sell");
}

#[test]
fn decimal_round_trip() {
    for n in [0u64, 1, 9, 10, 99, 100, 1006, 123456789, u64::MAX] {
        assert_eq!(parse_u64(&dec_of_u64(n)), Some(n));
    }
}
