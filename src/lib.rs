//! Transport lifecycle for a peer-to-peer node: binding, accepting, dialing and
//! shutting down, with the lifecycle phase carried in the type. Alongside it,
//! block proposals with the bytes a validator signs for them.

pub mod proposal;
mod sealed;
pub mod transport;
