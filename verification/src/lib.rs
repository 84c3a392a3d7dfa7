//! Core of a minimal µTP-style transport: the wire packet codec, the
//! per-connection sequencing state, and the timing primitives a congestion
//! estimator consumes. All I/O (binding, sending and receiving datagrams)
//! belongs to the surrounding program; this crate computes the datagrams to
//! send and the decisions to take on those received.

/// Wire packet format: the fixed 20-byte header and its codec.
pub mod packet;
/// Connection state: endpoints, sequencing, and the read/write decisions.
pub mod stream;
/// Clock sampling and the unsigned magnitude difference.
pub mod util;
