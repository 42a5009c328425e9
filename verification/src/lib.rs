//! A minimal worker-pool core for a concurrent connection-handling server.
//!
//! A fixed set of long-lived workers pulls jobs from a single FIFO queue:
//! every submitted job is delivered to exactly one worker, in submission
//! order, and shutdown drains the queue before the workers exit. The
//! `pool` module holds that dispatch core; the `http` module holds the
//! response shaping that the jobs of this application perform.

pub mod http;
pub mod pool;
