//! Small sum types and the total functions defined over them: a coin
//! denomination with its value in cents, a counter that may be absent,
//! a message with differently shaped payloads, three ways to pair an
//! address family with an address, and matches that single out a few
//! values.

pub mod coin;
pub mod increment;
pub mod ip_addr;
pub mod message;
pub mod patterns;
