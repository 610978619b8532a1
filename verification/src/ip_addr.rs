//! Three ways to say which family an address belongs to and what the
//! address is. They stand side by side; nothing converts between them.

use vstd::prelude::*;

verus! {

/// The family of an address, without the address.
pub enum IpAddrKind {
    V4,
    V6,
}

/// A family paired with the address as text.
pub struct IpAddr {
    pub kind: IpAddrKind,
    pub addr: String,
}

/// The family carries its address as text.
pub enum BetterIpAddr {
    V4(String),
    V6(String),
}

/// A version 4 address is four octets; a version 6 address stays text.
pub enum OtherBetterIpAddr {
    V4(u8, u8, u8, u8),
    V6(String),
}

} // verus!
