//! Core logic of a minimal concurrent TLS web server.
//!
//! The library holds everything the server decides or computes: byte-level
//! framing of a request header, fixed-route dispatch on the request line,
//! assembly of the response with its exact `Content-Length`, and the FIFO
//! discipline of a fixed-size worker pool. The binary built around it owns
//! the sockets, the TLS sessions and the OS threads; every decision those
//! parts act on is made and proved here.

pub mod bytes;
pub mod frame;
pub mod pool;
pub mod protocol;
pub mod queue;
