//! Network families and addresses.

use vstd::prelude::*;

use crate::errors::{ErrCode, ErrorSource, GatewayDError};
use crate::text::{append_str, chars_of, str_eq, string_from_chars};

verus! {

/// The network families a gateway can be reached over.
#[derive(Debug, Clone, Copy, PartialEq, Eq, Structural)]
pub enum NetworkFamily {
    Tcp,
    Udp,
    Unix,
}

/// The family of a network name: `tcp`/`tcp4`/`tcp6`, `udp`/`udp4`/`udp6`
/// or `unix`/`unixgram`/`unixpacket`.
pub open spec fn family_of(network: Seq<char>) -> Option<NetworkFamily> {
    if network == "tcp"@ || network == "tcp4"@ || network == "tcp6"@ {
        Some(NetworkFamily::Tcp)
    } else if network == "udp"@ || network == "udp4"@ || network == "udp6"@ {
        Some(NetworkFamily::Udp)
    } else if network == "unix"@ || network == "unixgram"@ || network == "unixpacket"@ {
        Some(NetworkFamily::Unix)
    } else {
        None
    }
}

/// The family of a network name, if it names one.
pub fn network_family(network: &str) -> (r: Option<NetworkFamily>)
    ensures
        r == family_of(network@),
{
    if str_eq(network, "tcp") || str_eq(network, "tcp4") || str_eq(network, "tcp6") {
        Some(NetworkFamily::Tcp)
    } else if str_eq(network, "udp") || str_eq(network, "udp4") || str_eq(network, "udp6") {
        Some(NetworkFamily::Udp)
    } else if str_eq(network, "unix") || str_eq(network, "unixgram") || str_eq(
        network,
        "unixpacket",
    ) {
        Some(NetworkFamily::Unix)
    } else {
        None
    }
}

/// How an address is turned into the one to dial.
#[derive(Debug, Clone, PartialEq, Eq)]
pub enum Resolution {
    /// A `host:port` to look up; the first address found is dialled.
    Lookup(String),
    /// A socket path, used as it is.
    Path(String),
}

/// What resolving `address` on `network` takes: a lookup for TCP and UDP,
/// nothing for Unix sockets. The network must be one of the families.
pub fn resolve(network: &str, address: &str) -> (r: Resolution)
    requires
        family_of(network@) is Some,
    ensures
        family_of(network@) == Some(NetworkFamily::Unix) ==> (r matches Resolution::Path(p) && p@
            == address@),
        family_of(network@) != Some(NetworkFamily::Unix) ==> (r matches Resolution::Lookup(a)
            && a@ == address@),
{
    match network_family(network) {
        Some(NetworkFamily::Unix) => Resolution::Path(address.to_owned()),
        _ => Resolution::Lookup(address.to_owned()),
    }
}

/// The error for an address that could not be looked up.
pub fn resolve_failed(address: &str, cause: ErrorSource) -> (r: GatewayDError)
    ensures
        r.code == ErrCode::ResolveFailed,
        r.message@ == "cannot resolve '"@ + address@ + "'"@,
        r.source == Some(cause),
{
    let mut m = chars_of("cannot resolve '");
    append_str(&mut m, address);
    append_str(&mut m, "'");
    GatewayDError { code: ErrCode::ResolveFailed, message: string_from_chars(m.as_slice()), source: Some(cause) }
}

/// The error for an address that was looked up and gave nothing.
pub fn no_addresses(address: &str) -> (r: GatewayDError)
    ensures
        r.code == ErrCode::ResolveFailed,
        r.message@ == "no addresses for '"@ + address@ + "'"@,
        r.source is None,
{
    let mut m = chars_of("no addresses for '");
    append_str(&mut m, address);
    append_str(&mut m, "'");
    GatewayDError { code: ErrCode::ResolveFailed, message: string_from_chars(m.as_slice()), source: None }
}

/// `host:port`.
pub fn make_addr(host: &str, port: &str) -> (r: String)
    ensures
        r@ == host@ + ":"@ + port@,
{
    let mut m = chars_of(host);
    append_str(&mut m, ":");
    append_str(&mut m, port);
    string_from_chars(m.as_slice())
}

} // verus!
