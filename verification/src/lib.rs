//! Local-network peer discovery and connection rendezvous.
//!
//! Nodes find each other over UDP broadcast and hand off to a direct TCP
//! connection.  The crate verifies the protocol core: the fixed 27-byte wire
//! encoding of socket addresses, the little-endian 2-byte port reply, the
//! passive responder and active seeker decision logic, and the state machines
//! of the two-phase UDP-ping-then-TCP-handoff rendezvous.  Socket and thread
//! plumbing lives outside the verified library and drives these functions.

pub mod codec;
pub mod discovery;
pub mod rendezvous;
pub mod types;
