//! Small decisions of the HTTP front: the ports it listens on, and the redirect to HTTPS.

use vstd::prelude::*;
use crate::text::{replace_all, spec_decimal, spec_replace, u64_to_decimal};

verus! {

/// The ports that the service listens on, for plain HTTP and for HTTPS.
#[derive(Debug, Clone, Copy, PartialEq, Eq, Structural)]
pub struct Ports {
    pub http: u16,
    pub https: u16,
}

/// The ports of a release build, or of a development build.
pub fn ports(release: bool) -> (p: Ports)
    ensures
        release ==> p == (Ports { http: 4080, https: 4443 }),
        !release ==> p == (Ports { http: 4081, https: 4444 }),
{
    if release {
        Ports { http: 4080, https: 4443 }
    } else {
        Ports { http: 4081, https: 4444 }
    }
}

/// The host to redirect an HTTP request for `host` to: every occurrence of the HTTP
/// port's number replaced by the HTTPS port's number.
pub fn https_host(host: &str, ports: Ports) -> (r: String)
    ensures
        r@ == spec_replace(host@, spec_decimal(ports.http as nat), spec_decimal(ports.https as nat)),
{
    let from = u64_to_decimal(ports.http as u64);
    let to = u64_to_decimal(ports.https as u64);
    proof {
        crate::text::lemma_decimal_nonempty(ports.http as nat);
    }
    replace_all(host, from.as_str(), to.as_str())
}

} // verus!
