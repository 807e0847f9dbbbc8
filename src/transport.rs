use vstd::prelude::*;

use crate::text::{chars_of, string_of};

verus! {

/// The collector's host when the caller names none.
pub open spec fn default_host() -> Seq<char> {
    "127.0.0.1"@
}

/// The collector's port when the caller names none.
pub open spec fn default_port() -> Seq<char> {
    "3001"@
}

/// The `host:port` address of the collector, each part defaulted when absent.
pub open spec fn endpoint_of(host: Option<Seq<char>>, port: Option<Seq<char>>) -> Seq<char> {
    let h = match host {
        Some(h) => h,
        None => default_host(),
    };
    let p = match port {
        Some(p) => p,
        None => default_port(),
    };
    h + ":"@ + p
}

/// An optional string slice as an optional sequence of characters.
pub open spec fn opt_view(s: Option<&str>) -> Option<Seq<char>> {
    match s {
        Some(s) => Some(s@),
        None => None,
    }
}

/// The address to connect to: `host:port`, with `127.0.0.1` and `3001` where
/// the caller leaves a part out.
pub fn endpoint(host: Option<&str>, port: Option<&str>) -> (r: String)
    ensures
        r@ == endpoint_of(opt_view(host), opt_view(port)),
{
    proof {
        reveal_strlit("127.0.0.1");
        reveal_strlit("3001");
        reveal_strlit(":");
    }
    let mut out = match host {
        Some(h) => chars_of(h),
        None => chars_of("127.0.0.1"),
    };
    let colon = chars_of(":");
    let mut tail = match port {
        Some(p) => chars_of(p),
        None => chars_of("3001"),
    };
    let mut rest = colon;
    rest.append(&mut tail);
    out.append(&mut rest);
    string_of(&out)
}

} // verus!
