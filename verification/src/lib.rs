//! Position and identity synchronisation for real-time participants: the
//! wire format shared by clients and the relay, the relay's fan-out rules,
//! and the client's registry of remote peers with its update cycle.

pub mod identity;
pub mod peers;
pub mod relay;
pub mod session;
pub mod sync;
pub mod wire;
