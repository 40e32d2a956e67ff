//! A cooperative run-to-completion task scheduler, with a few standalone
//! concurrency primitives beside it.

pub mod work_queue;
pub mod wake;
pub mod executor;
pub mod stack;
pub mod actor;
