//! Naming and stamping of spawn requests.
//!
//! A guest asks its host to spawn a sub-agent by dropping a request file into
//! a well-known directory. Two flavours of guest exist: one that can read a
//! clock and knows its process id ([`clocked`]), and one that can do neither
//! and counts the requests already filed instead ([`counted`]).

use vstd::prelude::*;
use vstd::string::*;

pub mod clocked;
pub mod counted;

verus! {

/// The directory that request files are dropped into.
pub open spec fn rpc_dir() -> Seq<char> {
    "/.rpc/requests"@
}

/// The file a request with the given id is written to.
pub open spec fn request_path_text(id: Seq<char>) -> Seq<char> {
    rpc_dir() + "/"@ + id + ".json"@
}

/// The path of the request file for `id`: the request directory, a slash, the
/// id, and the extension `.json`.
pub fn request_path(id: &str) -> (r: String)
    ensures
        r@ == request_path_text(id@),
{
    let mut path = String::from_str("/.rpc/requests");
    path.append("/");
    path.append(id);
    path.append(".json");
    path
}

} // verus!
