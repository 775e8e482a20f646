use vstd::prelude::*;
use vstd::string::*;

use crate::text::{decimal, push_decimal};

verus! {

/// The answer to a request that is turned away before any tool runs.
pub struct Rejection {
    pub status: u16,
    pub body: String,
}

/// The body of the answer to a request from a browser.
pub open spec fn browser_rejection_body() -> Seq<char> {
    "Forbidden: browser requests not allowed"@
}

/// Turns away requests that carry an `Origin` header, which browsers send:
/// they are answered with status 403 and a short body; other requests go on.
pub fn reject_browser_requests(has_origin_header: bool) -> (r: Option<Rejection>)
    ensures
        r is Some <==> has_origin_header,
        r matches Some(x) ==> x.status == 403 && x.body@ == browser_rejection_body(),
        r matches Some(x) ==> x.body@ == "Forbidden: browser requests not allowed"@,
{
    if has_origin_header {
        Some(Rejection {
            status: 403,
            body: String::from_str("Forbidden: browser requests not allowed"),
        })
    } else {
        None
    }
}

/// Whether `host` names only the local machine.
pub open spec fn is_loopback_spec(host: Seq<char>) -> bool {
    host == "127.0.0.1"@ || host == "::1"@ || host == "localhost"@
}

/// Whether binding to `host` keeps the server local; for any other host the
/// server warns that the clipboard is reachable from the network.
pub fn is_loopback_host(host: &str) -> (r: bool)
    ensures
        r == is_loopback_spec(host@),
        r <==> (host@ == "127.0.0.1"@ || host@ == "::1"@ || host@ == "localhost"@),
{
    let h = host.to_owned();
    h.eq(&String::from_str("127.0.0.1")) || h.eq(&String::from_str("::1")) || h.eq(
        &String::from_str("localhost"),
    )
}

/// The address the HTTP server binds: host, a colon, and the port.
pub fn bind_address(host: &str, port: u16) -> (r: String)
    ensures
        r@ == host@ + ":"@ + decimal(port as nat),
{
    let mut r = host.to_owned();
    r.append(":");
    push_decimal(&mut r, port as u64);
    r
}

} // verus!
