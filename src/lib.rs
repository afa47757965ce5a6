//! Packet relay between a TUN interface and an accessory channel.
//!
//! `binary` renders the short hex preview of a packet that is logged for
//! each forwarded chunk; `tunnel` holds the lifecycle of a relay session
//! (start, stop, the shared running flag); `worker` holds the decisions that
//! each of its two forwarding workers takes, and what they guarantee of the
//! bytes that pass through.
pub mod binary;
pub mod tunnel;
pub mod worker;

pub use binary::build_packet_string;
