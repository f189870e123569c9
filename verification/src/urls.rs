//! Request addresses: the service lives on the local host, so an address is
//! the fixed scheme-and-host prefix, a port in decimal, and the endpoint.

use vstd::prelude::*;
use vstd::string::StringExecFns;

use crate::digits::dec_of;
use crate::digits::push_decimal;

verus! {

/// The address of `endpoint` on the local host at `port`: the endpoint is
/// taken verbatim, so callers produce a path (and query) beginning with `/`.
pub open spec fn url_of(port: u16, endpoint: Seq<char>) -> Seq<char> {
    "https://127.0.0.1:"@ + dec_of(port as nat) + endpoint
}

/// Build the full request address for `endpoint` at `port`. No validation or
/// escaping is performed on the endpoint.
pub fn build_url(port: u16, endpoint: &str) -> (r: String)
    ensures
        r@ == url_of(port, endpoint@),
{
    let mut s: String = "https://127.0.0.1:".to_owned();
    push_decimal(&mut s, port);
    s.append(endpoint);
    proof {
        assert(s@ =~= url_of(port, endpoint@));
    }
    s
}

} // verus!
