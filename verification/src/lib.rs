//! Lookahead buffering for a broadcast playout queue.
//!
//! The queue decides which audio source feeds the next slot and collects one
//! encoded buffer per output stream for it. It performs no I/O itself: every
//! operation returns the action that its driver has to carry out, and the
//! driver reports the outcome back as an event.

pub mod entry;
pub mod laws;
pub mod model;
pub mod protocol;
pub mod queue;
pub mod source;

pub use entry::{entry_views, EntryView, QueueEntry};
pub use model::{ActionView, EventView, PhaseView, QueueView, REMOTE_ATTEMPTS};
pub use protocol::{found_view, Action, Event};
pub use queue::{batch_view, Queue};
pub use source::{Config, ConfigView, Source, SourceView};
