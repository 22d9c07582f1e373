//! A verified core for an ICMP Echo ("ping") client: packet encoding and
//! decoding with the Internet checksum, a session that filters echo replies
//! by identifier under a receive deadline, and round-trip statistics.

pub mod codec;
pub mod session;
pub mod stats;
