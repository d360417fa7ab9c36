//! Port selection for the backend's listening socket.
//!
//! The policy is fixed-preferred-with-static-fallback: the preferred port is
//! probed for availability (by the driver, which briefly binds and releases
//! it) and used when free; otherwise a fixed fallback port is used. The
//! decision itself is a pure function of the probe's outcome, so the fallback
//! path can be exercised without touching a socket.

use vstd::prelude::*;
use vstd::string::StringExecFns;
use crate::text;

verus! {

/// The port the backend binds when it is available.
pub const PREFERRED_PORT: u16 = 34425;

/// The port used when the preferred one is already taken.
pub const FALLBACK_PORT: u16 = 3000;

/// The local address the backend binds and the shell connects to; the
/// supervisor never serves anything off-machine.
pub fn loopback_host() -> (r: &'static str)
    ensures
        r@ == "127.0.0.1"@,
{
    "127.0.0.1"
}

/// The endpoint the backend listens on. The host is always the loopback
/// address; only the port is chosen per launch.
#[derive(Clone, Copy, PartialEq, Eq, Structural, Debug)]
pub struct ListenEndpoint {
    pub port: u16,
}

pub open spec fn chosen_port(preferred: u16, fallback: u16, preferred_free: bool) -> u16 {
    if preferred_free {
        preferred
    } else {
        fallback
    }
}

/// The fixed-preferred-with-static-fallback policy, decoupled from socket
/// probing: `preferred_free` is what the driver observed when it test-bound
/// the preferred port.
pub fn choose_port(preferred: u16, fallback: u16, preferred_free: bool) -> (p: u16)
    ensures
        p == chosen_port(preferred, fallback, preferred_free),
{
    if preferred_free {
        preferred
    } else {
        fallback
    }
}

/// Chooses the endpoint for one launch from the availability of the
/// preferred port.
pub fn allocate(preferred_free: bool) -> (e: ListenEndpoint)
    ensures
        e.port == chosen_port(PREFERRED_PORT, FALLBACK_PORT, preferred_free),
{
    ListenEndpoint { port: choose_port(PREFERRED_PORT, FALLBACK_PORT, preferred_free) }
}

/// The text of the URL the shell's window is pointed at.
pub open spec fn local_url_chars(port: u16) -> Seq<char> {
    "http://127.0.0.1:"@ + text::decimal_chars(port as nat)
}

/// Builds the local URL for the chosen endpoint.
pub fn local_url(endpoint: ListenEndpoint) -> (r: String)
    ensures
        r@ == local_url_chars(endpoint.port),
{
    let mut s = String::from_str("http://127.0.0.1:");
    text::push_decimal(&mut s, endpoint.port);
    s
}

} // verus!
