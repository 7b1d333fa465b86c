//! Plain-value forms of the addresses a lookup returns: an IP address as its
//! octets, and a socket address as an IP address with a port.

use vstd::prelude::*;

verus! {

/// An IP address held as plain octets: four for IPv4, sixteen for IPv6.
#[derive(Clone, Copy, PartialEq, Eq, Debug)]
pub enum IpAddress {
    V4([u8; 4]),
    V6([u8; 16]),
}

/// An IP address paired with a port.
#[derive(Clone, Copy, PartialEq, Eq, Debug)]
pub struct SocketAddress {
    pub ip: IpAddress,
    pub port: u16,
}

/// Pair every address with port zero, keeping the order. The port is filled
/// in later by the caller's connection logic; this adapter resolves names,
/// not endpoints.
pub fn with_port_zero(ips: &Vec<IpAddress>) -> (r: Vec<SocketAddress>)
    ensures
        r@ == ips@.map_values(|a: IpAddress| SocketAddress { ip: a, port: 0u16 }),
{
    let mut out: Vec<SocketAddress> = Vec::new();
    let mut idx: usize = 0;
    while idx < ips.len()
        invariant
            idx <= ips@.len(),
            out@ == ips@.take(idx as int).map_values(
                |a: IpAddress| SocketAddress { ip: a, port: 0u16 },
            ),
        decreases ips@.len() - idx,
    {
        out.push(SocketAddress { ip: ips[idx], port: 0 });
        proof {
            assert(ips@.take(idx + 1 as int).drop_last() == ips@.take(idx as int));
            assert(out@ =~= ips@.take(idx + 1 as int).map_values(
                |a: IpAddress| SocketAddress { ip: a, port: 0u16 },
            ));
        }
        idx = idx + 1;
    }
    proof {
        assert(ips@.take(ips@.len() as int) == ips@);
    }
    out
}

} // verus!
