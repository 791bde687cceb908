//! Host-side logic of a relay between a blockchain validator and a signing
//! enclave: the length-prefixed framing shared by every channel that crosses
//! the enclave boundary, the monotonic persistence of consensus state, the
//! enclave lifecycle decisions and the construction of a signing session.
pub mod frame;
pub mod consensus;
pub mod syncer;
pub mod enclave;
pub mod session;
pub mod proxy;
pub mod logging;
pub mod attestation;
