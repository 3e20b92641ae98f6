//! Attestation bridge for an enclave: the request/response protocol between a
//! host that asks for attestation documents and the secure hardware monitor
//! that signs them.
//!
//! The crate holds the decisions of the bridge and none of its I/O. A driver
//! owns the socket and the device; it reports what happened as events and
//! carries out the actions it is handed back.

pub mod acceptor;
pub mod codec;
pub mod monitor;
pub mod session;
pub mod wire;
