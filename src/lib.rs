//! Decoding of the fixed-layout raw sections emitted by kernel probes into
//! partially filled event records.

pub mod layout;
pub mod ovs;
pub mod skb_drop;
