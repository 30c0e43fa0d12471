//! Ports and loopback addresses: the port the operating system offers, the
//! fallbacks used when it offers none, and the addresses built from a port.
use vstd::prelude::*;
use vstd::string::StringExecFns;

use crate::text::{decimal, decimal_string};

verus! {

/// Port of the native API server when the operating system offers none.
pub const DEFAULT_API_PORT: u16 = 4000;

/// Port of the PHP server when the operating system offers none.
pub const DEFAULT_PHP_PORT: u16 = 8100;

/// `port_scanner::request_open_port`: binds a listener to `0.0.0.0:0` and
/// returns the port that the operating system assigned, or `None` when the
/// bind or the address query fails. Which port comes back depends on the
/// machine, so nothing is stated of the result.
#[verifier::external_body]
fn request_open_port() -> (port: Option<u16>) {
    port_scanner::request_open_port()
}

/// The port found, or `fallback` where none was found.
pub open spec fn port_or_spec(found: Option<u16>, fallback: u16) -> u16 {
    match found {
        Some(p) => p,
        None => fallback,
    }
}

/// The port found, or `fallback` where none was found.
pub fn port_or(found: Option<u16>, fallback: u16) -> (port: u16)
    ensures
        port == port_or_spec(found, fallback),
{
    match found {
        Some(p) => p,
        None => fallback,
    }
}

/// Asks the operating system for a free port and falls back to `fallback`
/// when it offers none. The port returned is whatever the system gave, so
/// only the fallback case is pinned down here (see `port_or`).
pub fn request_port_or(fallback: u16) -> (port: u16) {
    let found = request_open_port();
    port_or(found, fallback)
}

/// `127.0.0.1:<port>`, the loopback address on which a server listens.
pub open spec fn loopback_address(port: u16) -> Seq<char> {
    "127.0.0.1:"@ + decimal(port as nat)
}

/// `127.0.0.1:<port>`.
pub fn listen_address(port: u16) -> (addr: String)
    ensures
        addr@ == loopback_address(port),
{
    let host = "127.0.0.1:".to_owned();
    let digits = decimal_string(port);
    host.concat(digits.as_str())
}

/// The path under which the native API serves its routes.
pub open spec fn api_prefix() -> Seq<char> {
    "/_native/api/"@
}

/// `http://127.0.0.1:<port>/_native/api/`: where the PHP application finds the native API.
pub open spec fn api_base_url_spec(port: u16) -> Seq<char> {
    "http://"@ + loopback_address(port) + api_prefix()
}

/// The base URL of the native API served on `port`.
pub fn api_base_url(port: u16) -> (url: String)
    ensures
        url@ == api_base_url_spec(port),
{
    let scheme = "http://".to_owned();
    let addr = listen_address(port);
    let url = scheme.concat(addr.as_str()).concat("/_native/api/");
    assert(url@ =~= api_base_url_spec(port));
    url
}

} // verus!
