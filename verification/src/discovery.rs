//! Finding peers on the local network: the mDNS service name and its TXT
//! tokens, the broadcast beacon's framing, manually entered addresses, and the
//! registry of peers currently believed reachable.

pub mod mdns;
pub mod registry;
pub mod beacon;
pub mod manual;
pub mod broadcast;
