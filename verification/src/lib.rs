//! A backend lifecycle supervisor: it tracks the port and child-process
//! handle of a single spawned server, builds the server's loopback URLs,
//! decides readiness from a health probe, and releases the child handle
//! exactly once on shutdown.

pub mod decimal;
pub mod probe;
pub mod supervisor;

pub use decimal::u16_decimal;
pub use supervisor::BackendProcess;
pub use supervisor::RunEvent;
pub use supervisor::backend_args;
pub use supervisor::ready_from_status;
