//! The public market-data interface: typed records decoded from the REST
//! responses and the construction of each endpoint's URL. The HTTP fetch and
//! the JSON decode themselves are the unverified shell's work; this module
//! owns what can be computed -- the exact request text and the data model.

use vstd::prelude::*;

use crate::numeric::{dec_of_u64, dec_str};
use crate::Error;
use crate::Side;

verus! {

/// A tradable instrument.
pub struct Product {
    pub id: String,
    pub base_currency: String,
    pub quote_currency: String,
    pub base_min_size: String,
    pub base_max_size: String,
    pub quote_increment: String,
}

/// One aggregated level of the order book.
pub struct BookEntry {
    pub price: String,
    pub size: String,
    pub num_orders: u64,
}

/// `uuid::Uuid`, the identifier type of a single order; carried through
/// opaquely, nothing of its inside is relied on.
#[verifier::external_type_specification]
#[verifier::external_body]
pub struct ExUuid(uuid::Uuid);

/// One unaggregated order of the full book.
pub struct FullBookEntry {
    pub price: String,
    pub size: String,
    pub order_id: uuid::Uuid,
}

/// An order-book snapshot.
pub struct OrderBook<T> {
    pub sequence: usize,
    pub bids: Vec<T>,
    pub asks: Vec<T>,
}

/// A point in time, as seconds and nanoseconds since the Unix epoch.
pub struct Timestamp {
    pub secs: i64,
    pub nanos: u32,
}

/// The last second of the year 9999, exclusive: timestamps below it have a
/// four-digit year.
pub const RFC3339_SECS_END: i64 = 253402300800;

impl Timestamp {
    /// Representable as an RFC 3339 date with a four-digit year.
    pub open spec fn valid(&self) -> bool {
        0 <= self.secs < RFC3339_SECS_END && self.nanos < 1000000000
    }
}

/// The latest trade of an instrument.
pub struct Tick {
    pub trade_id: u64,
    pub price: String,
    pub size: String,
    pub bid: String,
    pub ask: String,
    pub volume: String,
    pub time: Timestamp,
}

/// One executed trade.
pub struct Trade {
    pub time: Timestamp,
    pub trade_id: u64,
    pub price: String,
    pub size: String,
    pub side: Side,
}

/// 24-hour statistics of an instrument.
pub struct Stats {
    pub open: String,
    pub high: String,
    pub low: String,
    pub volume: String,
}

/// A currency known to the exchange.
pub struct Currency {
    pub id: String,
    pub name: String,
    pub min_size: String,
}

/// The RFC 3339 text of a point in time, as chrono renders it; it depends on
/// the seconds and nanoseconds alone.
pub uninterp spec fn rfc3339_of(secs: int, nanos: int) -> Seq<char>;

/// Relies on chrono's `DateTime::from_timestamp` and `DateTime::to_rfc3339`:
/// the rendered text is a function of the seconds and nanoseconds alone, and
/// every timestamp between the Unix epoch and the year 9999 with a
/// sub-second part below one second is representable.
#[verifier::external_body]
fn rfc3339_utc(secs: i64, nanos: u32) -> (r: Option<String>)
    ensures
        r matches Some(s) ==> s@ == rfc3339_of(secs as int, nanos as int),
        0 <= secs < RFC3339_SECS_END && nanos < 1000000000 ==> r is Some,
{
    match chrono::DateTime::from_timestamp(secs, nanos) {
        Some(d) => Some(d.to_rfc3339()),
        None => None,
    }
}

/// Whether an HTTP status code counts as success: the two-hundreds. A
/// non-success response body carries a structured API error instead of the
/// requested record.
pub fn status_is_success(status: u16) -> (r: bool)
    ensures
        r == (200 <= status < 300),
{
    200 <= status && status < 300
}

/// The base of every public endpoint.
pub open spec fn api_base_spec() -> Seq<char> {
    "https://api.gdax.com"@
}

/// The URL of the product list.
pub fn products_url() -> (r: String)
    ensures
        r@ == api_base_spec() + "/products"@,
{
    let s = String::from_str("https://api.gdax.com/products");
    proof {
        reveal_strlit("https://api.gdax.com");
        reveal_strlit("/products");
        reveal_strlit("https://api.gdax.com/products");
        assert(s@ =~= api_base_spec() + "/products"@);
    }
    s
}

/// The URL of the currency list.
pub fn currencies_url() -> (r: String)
    ensures
        r@ == api_base_spec() + "/currencies"@,
{
    let s = String::from_str("https://api.gdax.com/currencies");
    proof {
        reveal_strlit("https://api.gdax.com");
        reveal_strlit("/currencies");
        reveal_strlit("https://api.gdax.com/currencies");
        assert(s@ =~= api_base_spec() + "/currencies"@);
    }
    s
}

/// The URL of the server clock.
pub fn time_url() -> (r: String)
    ensures
        r@ == api_base_spec() + "/time"@,
{
    let s = String::from_str("https://api.gdax.com/time");
    proof {
        reveal_strlit("https://api.gdax.com");
        reveal_strlit("/time");
        reveal_strlit("https://api.gdax.com/time");
        assert(s@ =~= api_base_spec() + "/time"@);
    }
    s
}

/// The URL of one product's endpoint with the given suffix.
pub open spec fn product_url_spec(product: Seq<char>, suffix: Seq<char>) -> Seq<char> {
    api_base_spec() + "/products/"@ + product + suffix
}

/// Builds `/products/<product><suffix>` under the API base.
fn product_url(product: &str, suffix: &str) -> (r: String)
    ensures
        r@ == product_url_spec(product@, suffix@),
{
    let mut s = String::from_str("https://api.gdax.com/products/");
    s.append(product);
    s.append(suffix);
    proof {
        reveal_strlit("https://api.gdax.com");
        reveal_strlit("/products/");
        reveal_strlit("https://api.gdax.com/products/");
        assert("https://api.gdax.com/products/"@ =~= api_base_spec() + "/products/"@);
        assert(s@ =~= product_url_spec(product@, suffix@));
    }
    s
}

/// The URL of one product's latest tick.
pub fn ticker_url(product: &str) -> (r: String)
    ensures
        r@ == product_url_spec(product@, "/ticker"@),
{
    product_url(product, "/ticker")
}

/// The URL of one product's recent trades.
pub fn trades_url(product: &str) -> (r: String)
    ensures
        r@ == product_url_spec(product@, "/trades"@),
{
    product_url(product, "/trades")
}

/// The URL of one product's 24-hour statistics.
pub fn stats_url(product: &str) -> (r: String)
    ensures
        r@ == product_url_spec(product@, "/stats"@),
{
    product_url(product, "/stats")
}

/// The URL of one product's order book at a given level.
pub open spec fn order_book_url_spec(product: Seq<char>, level: nat) -> Seq<char> {
    product_url_spec(product, "/book?level="@ + dec_str(level))
}

/// The URL of one product's order book. Levels one to three are accepted;
/// any other level is rejected with `InvalidArgument` and the text naming
/// the accepted levels.
pub fn order_book_url(product: &str, level: u8) -> (r: Result<String, Error>)
    ensures
        1 <= level <= 3 ==> (r matches Ok(u) && u@ == order_book_url_spec(
            product@,
            level as nat,
        )),
        !(1 <= level <= 3) ==> (r matches Err(e) && e matches Error::InvalidArgument(m) && m@
            == "Orderbook level must be 1,2, or 3"@),
{
    match level {
        1 | 2 | 3 => {
            let mut s = product_url(product, "/book?level=");
            let d = dec_of_u64(level as u64);
            s.append(d.as_str());
            proof {
                assert(s@ =~= order_book_url_spec(product@, level as nat));
            }
            Ok(s)
        },
        _ => Err(
            Error::InvalidArgument(String::from_str("Orderbook level must be 1,2, or 3")),
        ),
    }
}

/// The URL of one product's historic candles over a time range at a given
/// granularity in seconds.
pub open spec fn historic_rates_url_spec(
    product: Seq<char>,
    start: Timestamp,
    end: Timestamp,
    granularity: nat,
) -> Seq<char> {
    product_url_spec(product, "/candles?start="@ + rfc3339_of(start.secs as int, start.nanos as int)
        + "&end="@ + rfc3339_of(end.secs as int, end.nanos as int) + "&granularity="@ + dec_str(
        granularity,
    ))
}

/// Builds the historic-candles URL. Both range ends are rendered as RFC 3339
/// text; a timestamp the calendar cannot represent yields `None`, and every
/// valid timestamp is representable.
pub fn historic_rates_url(
    product: &str,
    start: &Timestamp,
    end: &Timestamp,
    granularity: u64,
) -> (r: Option<String>)
    ensures
        r matches Some(u) ==> u@ == historic_rates_url_spec(
            product@,
            *start,
            *end,
            granularity as nat,
        ),
        start.valid() && end.valid() ==> r is Some,
{
    let start_text = match rfc3339_utc(start.secs, start.nanos) {
        Some(t) => t,
        None => {
            return None;
        },
    };
    let end_text = match rfc3339_utc(end.secs, end.nanos) {
        Some(t) => t,
        None => {
            return None;
        },
    };
    let mut s = product_url(product, "/candles?start=");
    s.append(start_text.as_str());
    s.append("&end=");
    s.append(end_text.as_str());
    s.append("&granularity=");
    let g = dec_of_u64(granularity);
    s.append(g.as_str());
    proof {
        assert(s@ =~= historic_rates_url_spec(product@, *start, *end, granularity as nat));
    }
    Some(s)
}

} // verus!
