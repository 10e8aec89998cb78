//! Request ids and timestamps for a guest without a clock or a process id.

use vstd::prelude::*;
use vstd::string::*;
use crate::decimal::{decimal_text, push_decimal};

verus! {

/// A request id: the word `spawn`, a hyphen, and a count.
pub open spec fn id_text(count: usize) -> Seq<char> {
    "spawn-"@ + decimal_text(count as nat)
}

/// The timestamp a guest without a clock puts on its requests: a lone zero.
/// The host stamps the request when it picks the file up.
pub fn get_timestamp() -> (r: String)
    ensures
        r@ == "0"@,
{
    String::from_str("0")
}

/// The id of the next request, given how many have been filed so far.
pub fn generate_id(count: usize) -> (r: String)
    ensures
        r@ == id_text(count),
{
    let mut out = String::from_str("spawn-");
    push_decimal(&mut out, count as u64);
    out
}

} // verus!
