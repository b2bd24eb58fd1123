//! An echo service library: the verified core of a WebSocket echo server.
//!
//! The library holds the parts of the server with real decisions in them:
//! the per-connection worker state machine (receive, classify, echo), the
//! error taxonomy that separates expected peer-initiated termination from
//! failures worth logging, the worker identifier allocator, and the
//! construction of the transport-security negotiator. The surrounding
//! process (socket accept loop, thread spawning, the actual socket I/O)
//! lives outside the library and drives these types.

pub mod allocator;
pub mod errors;
pub mod message;
pub mod tls;
pub mod worker;

pub use allocator::WorkerIdAllocator;
pub use errors::{ServerError, WorkerError, WorkerExit};
pub use message::{Msg, MsgKind, MsgView};
pub use tls::build_negotiator;
pub use worker::{Phase, RecvEvent, Worker};
