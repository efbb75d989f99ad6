//! The two control frames of the application-level handshake, sent once per
//! successful open: a subscribe frame naming the instrument, then a
//! heartbeat-enable frame.

use vstd::prelude::*;

verus! {

/// The text of the subscribe control frame for one instrument identifier.
/// The identifier is inserted verbatim between the quotes.
pub open spec fn subscribe_frame_spec(product: Seq<char>) -> Seq<char> {
    "{\"type\":\"subscribe\",\"product_ids\":[\""@ + product + "\"]}"@
}

/// The text of the heartbeat-enable control frame.
pub open spec fn heartbeat_frame_spec() -> Seq<char> {
    "{\"type\":\"heartbeat\",\"on\":true}"@
}

/// Builds the subscribe frame for one instrument identifier, which is
/// inserted verbatim (identifiers contain no characters that JSON escapes).
pub fn subscribe_frame(product: &str) -> (r: String)
    ensures
        r@ == subscribe_frame_spec(product@),
{
    let mut s = String::from_str("{\"type\":\"subscribe\",\"product_ids\":[\"");
    s.append(product);
    s.append("\"]}");
    proof {
        assert(s@ =~= subscribe_frame_spec(product@));
    }
    s
}

/// Builds the heartbeat-enable frame.
pub fn heartbeat_frame() -> (r: String)
    ensures
        r@ == heartbeat_frame_spec(),
{
    String::from_str("{\"type\":\"heartbeat\",\"on\":true}")
}

} // verus!
