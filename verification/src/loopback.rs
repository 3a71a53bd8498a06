//! The address on which the sidecar is reached: the local machine only.

use crate::decimal::{decimal, port_text};
use vstd::prelude::*;
use vstd::string::StringExecFns;

verus! {

/// The loopback host, in the form that socket addresses are written in.
pub const LOOPBACK_HOST: &'static str = "127.0.0.1";

/// The socket address `127.0.0.1:<port>` as text.
pub open spec fn loopback_address_text(port: u16) -> Seq<char> {
    LOOPBACK_HOST@ + seq![':'] + decimal(port as nat)
}

/// The loopback socket address for `port`. With port 0 it is the address
/// to bind when the system is to pick a free port; with the sidecar's port
/// it is the address to probe.
pub fn loopback_address(port: u16) -> (address: String)
    ensures
        address@ == loopback_address_text(port),
{
    proof {
        reveal_strlit(":");
    }
    let mut address = String::from_str(LOOPBACK_HOST);
    address.append(":");
    let number = port_text(port);
    address.append(number.as_str());
    assert(":"@ =~= seq![':']);
    address
}

} // verus!
