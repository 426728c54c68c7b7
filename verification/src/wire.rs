//! Outbound wire frames: the fixed acknowledgment envelopes and the
//! client's position-update message, rendered exactly.

use vstd::prelude::*;
use vstd::string::StringExecFns;
use crate::text::{append_i64, append_u64, spec_i64_digits, spec_u64_digits};

verus! {

/// The server's acknowledgment envelope.
pub open spec fn spec_ok_wire() -> Seq<char> {
    "{\"status\":\"ok\"}"@
}

/// The server's answer to a message it could not decode.
pub open spec fn spec_error_wire() -> Seq<char> {
    "{\"status\":\"error\"}"@
}

/// The client's position-update message for one player.
pub open spec fn spec_update_wire(player_id: int, x: int, y: int) -> Seq<char> {
    "{\"type\":\"update\",\"player_id\":\""@ + spec_u64_digits(player_id)
        + "\",\"data\":{\"x\":"@ + spec_i64_digits(x) + ",\"y\":"@ + spec_i64_digits(y) + "}}"@
}

pub fn ok_response() -> (s: String)
    ensures
        s@ == spec_ok_wire(),
{
    String::from_str("{\"status\":\"ok\"}")
}

pub fn error_response() -> (s: String)
    ensures
        s@ == spec_error_wire(),
{
    String::from_str("{\"status\":\"error\"}")
}

/// Render the position update the client sends each frame: the owning
/// player's id as a digit string, and its new coordinates.
pub fn encode_update(player_id: u64, x: i64, y: i64) -> (s: String)
    ensures
        s@ == spec_update_wire(player_id as int, x as int, y as int),
{
    let mut s = String::from_str("{\"type\":\"update\",\"player_id\":\"");
    append_u64(&mut s, player_id);
    s.append("\",\"data\":{\"x\":");
    append_i64(&mut s, x);
    s.append(",\"y\":");
    append_i64(&mut s, y);
    s.append("}}");
    assert(s@ =~= spec_update_wire(player_id as int, x as int, y as int));
    s
}

} // verus!
