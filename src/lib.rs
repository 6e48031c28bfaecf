//! Frame submission and timing feedback between a host application and an
//! asynchronous renderer: a FIFO of submission timestamps, the render
//! notifier's per-frame decisions, scene building, epoch-checked submission
//! and the lock/unlock/release lifecycle of external images.
pub mod handler;
pub mod notifier;
pub mod scene;
pub mod timing;
pub mod wrench;
