//! The startup configuration the binary hands to the library: scan root,
//! bind port, allowlist prefixes and the optional worker-pool size. The
//! binary owns argument parsing; this is the plain shape it produces.

use vstd::prelude::*;
use vstd::string::*;

verus! {

/// Startup configuration for the poster generator.
pub struct Args {
    /// Root directory to scan for templates; the current directory when
    /// absent.
    pub workdir: Option<String>,
    /// Server bind port.
    pub port: u16,
    /// URL prefixes allowed to fetch; empty allows all.
    pub allow_urls: Vec<String>,
    /// Fixed worker-pool size; unbounded spawning when absent.
    pub pool_size: Option<usize>,
}

/// The address the listener binds: every interface, at the given port.
pub open spec fn spec_bind_addr(port: u16) -> Seq<char> {
    "0.0.0.0:"@ + crate::text::spec_decimal(port as nat)
}

/// Formats the bind address for the given port.
pub fn bind_addr(port: u16) -> (r: String)
    ensures
        r@ == spec_bind_addr(port),
{
    let mut s = String::from_str("0.0.0.0:");
    let digits = crate::text::decimal_string(port as u64);
    s.append(digits.as_str());
    s
}

} // verus!
