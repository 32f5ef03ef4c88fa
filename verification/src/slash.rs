//! The slash-command surface: one global `ping` command with a fixed
//! acknowledgement. The transport delivers the interaction; this module only
//! decides the reply.

use crate::text::str_eq;
use vstd::prelude::*;

verus! {

/// The reply owed for a slash-command interaction: `Pong!` if and only if
/// the invoked command is the one registered global command `ping`, nothing
/// otherwise.
pub fn slash_response(name: &str) -> (r: Option<String>)
    ensures
        (r is Some) <==> name@ == "ping"@,
        r is Some ==> r.unwrap()@ == "Pong!"@,
{
    if str_eq(name, "ping") {
        Some(String::from_str("Pong!"))
    } else {
        None
    }
}

} // verus!
