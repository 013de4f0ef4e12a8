//! Client-side load balancer over a fixed pool of converter backends.
//!
//! The pool keeps one slot per backend. A conversion first takes one of the
//! pool's permits, then scans the slots in their fixed order for one that is
//! neither in use nor resting after a busy answer, probes that backend, and
//! converts on the first backend that is free. Nothing here waits or talks to
//! a backend: the functions decide, from the pool's state and from what the
//! caller reports, what the caller does next.
//!
//! Points in time and intervals are nanoseconds on the caller's monotonic
//! clock.

pub mod config;
pub mod convert;
pub mod laws;
pub mod model;
pub mod pool;
pub mod retry;
pub mod system;

pub use self::config::LoadBalancerConfig;
pub use self::convert::{ConvertAction, ConvertEvent, ConvertJob};
pub use self::pool::{OfficeConvertLoadBalancer, ScanStep, TryAcquireResult};
