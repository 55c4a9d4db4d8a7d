//! Channels for tasks that share one thread.
//!
//! The handles of a channel are reference-counted and not `Send`: they are meant
//! for cooperatively scheduled tasks, which never run at the same time.

pub mod mpsc;
