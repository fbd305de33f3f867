//! Receive-side core of a streaming packet client.
//!
//! A client decodes a header-prefixed packet protocol incrementally from a
//! live byte stream into buffers checked out of a bounded pool. When an
//! acquired buffer is too small to hold a packet's body, the header decoded
//! so far must be retained and the decode resumed into a fresh buffer,
//! without losing or duplicating any byte already consumed from the stream.
//!
//! This crate verifies the decisions of that loop: the control state carried
//! across buffer swaps, the carry-forward of the partially decoded header,
//! and the termination rules. The socket, the buffer pool and the packet
//! codec are external collaborators; an embedding application performs their
//! calls and reports each outcome to [`receiver::ReceiverCore`], whose
//! contracts pin every transition to the abstract machine in [`model`]. The
//! guarantees that hold of whole runs are stated and proved in [`laws`].

pub mod laws;
pub mod model;
pub mod receiver;
pub mod sender;
