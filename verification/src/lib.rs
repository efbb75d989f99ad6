//! Verified core of a client for a cryptocurrency exchange: the streaming
//! session state machine with its handshake frames, and the request/response
//! mapping of the public market-data interface (URL construction, numeric
//! text, typed records). Network I/O itself lives outside this crate; the
//! unverified shell drives the transport and feeds its events back in.

use vstd::prelude::*;

pub mod frames;
pub mod handler;
pub mod market;
pub mod numeric;
pub mod session;

verus! {

/// A structured error body returned by the exchange's REST interface.
#[derive(Debug)]
pub struct ApiError {
    message: String,
}

impl ApiError {
    /// The error text reported by the exchange.
    pub closed spec fn message_spec(&self) -> Seq<char> {
        self.message@
    }

    pub fn new(message: String) -> (e: ApiError)
        ensures
            e.message_spec() == message@,
    {
        ApiError { message }
    }

    pub fn message(&self) -> (r: &str)
        ensures
            r@ == self.message_spec(),
    {
        self.message.as_str()
    }
}

/// Failures surfaced by the library. `Http` and `Json` carry the description
/// of a transport or decode failure as reported by the unverified I/O shell;
/// `InvalidSecretKey` stands for a credential that could not be decoded;
/// `InvalidArgument` is produced here, with the text saying what was wrong.
#[derive(Debug)]
pub enum Error {
    Api(ApiError),
    Http(String),
    InvalidSecretKey,
    Json(String),
    InvalidArgument(String),
}

/// Which side of the book an order or trade is on.
#[derive(Clone, Copy, Debug, PartialEq, Eq, Structural)]
pub enum Side {
    Buy,
    Sell,
}

/// The human-readable name of a side.
pub open spec fn side_label(s: Side) -> Seq<char> {
    match s {
        Side::Buy => "Buy"@,
        Side::Sell => "Sell"@,
    }
}

/// The name of a side in the exchange's JSON encoding.
pub open spec fn side_wire(s: Side) -> Seq<char> {
    match s {
        Side::Buy => "buy"@,
        Side::Sell => "sell"@,
    }
}

/// Whether two characters are equal up to ASCII case.
pub open spec fn char_eq_ic(x: char, y: char) -> bool {
    ||| x == y
    ||| (65 <= x as int <= 90 && y as int == x as int + 32)
    ||| (65 <= y as int <= 90 && x as int == y as int + 32)
}

/// Whether two texts are equal up to ASCII case.
pub open spec fn text_eq_ic(a: Seq<char>, b: Seq<char>) -> bool {
    a.len() == b.len() && forall|i: int| 0 <= i < a.len() ==> #[trigger] char_eq_ic(a[i], b[i])
}

/// Compares two texts ignoring ASCII case.
fn str_eq_ic(a: &str, b: &str) -> (r: bool)
    ensures
        r == text_eq_ic(a@, b@),
{
    let n = a.unicode_len();
    if n != b.unicode_len() {
        return false;
    }
    let mut i: usize = 0;
    while i < n
        invariant
            0 <= i <= n,
            n == a@.len(),
            n == b@.len(),
            forall|j: int| 0 <= j < i ==> #[trigger] char_eq_ic(a@[j], b@[j]),
        decreases n - i,
    {
        let x = a.get_char(i) as u32;
        let y = b.get_char(i) as u32;
        let xl = if 65 <= x && x <= 90 { x + 32 } else { x };
        let yl = if 65 <= y && y <= 90 { y + 32 } else { y };
        if xl != yl {
            proof {
                assert(!char_eq_ic(a@[i as int], b@[i as int]));
            }
            return false;
        }
        i += 1;
    }
    true
}

impl Side {
    /// The human-readable name of the side, for display.
    pub fn label(&self) -> (r: &'static str)
        ensures
            r@ == side_label(*self),
    {
        match self {
            Side::Buy => "Buy",
            Side::Sell => "Sell",
        }
    }

    /// The side's name in the exchange's JSON encoding.
    pub fn to_wire(&self) -> (r: &'static str)
        ensures
            r@ == side_wire(*self),
    {
        match self {
            Side::Buy => "buy",
            Side::Sell => "sell",
        }
    }

    /// Reads a side from its wire name, ignoring ASCII case; any other text
    /// is rejected.
    pub fn from_wire(s: &str) -> (r: Result<Side, Error>)
        ensures
            text_eq_ic(s@, "buy"@) ==> r == Ok::<Side, Error>(Side::Buy),
            !text_eq_ic(s@, "buy"@) && text_eq_ic(s@, "sell"@) ==> r == Ok::<Side, Error>(
                Side::Sell,
            ),
            !text_eq_ic(s@, "buy"@) && !text_eq_ic(s@, "sell"@) ==> (r matches Err(e)
                && e matches Error::InvalidArgument(m)
                && m@ == "side must be either `buy` or `sell`"@),
    {
        if str_eq_ic(s, "buy") {
            Ok(Side::Buy)
        } else if str_eq_ic(s, "sell") {
            Ok(Side::Sell)
        } else {
            Err(Error::InvalidArgument(String::from_str("side must be either `buy` or `sell`")))
        }
    }
}

} // verus!
