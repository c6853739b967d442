//! Channel multiplexer core: local port allocation, the frame encoding, the
//! connection lifecycle, per-port flow control, and the decision logic of the
//! remote watch channel drivers.

pub mod port_allocator;
pub mod frame;
pub mod mux;
pub mod port;
pub mod watch;
