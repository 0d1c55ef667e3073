//! A batching byte-slice queue.
//!
//! Producers enqueue individually owned byte payloads; a single consumer
//! dequeues all currently queued payloads at once as one batch of slices
//! suitable for vectored writes, with reserved framing slots at both ends.
//! The queue owns two slice buffers and rotates them: one is filled while
//! the other is drained.

pub mod bytes;
mod buffer;
pub mod error;
pub mod queue;
pub mod sync;
mod vectored;

pub use queue::QueueView;
pub use queue::TryDequeueResult;
pub use queue::VectoredQueue;
pub use sync::SyncVectoredQueue;

pub use vectored::FrameView;
pub use vectored::Vectored;
pub use vectored::VectoredFrame;
pub use vectored::install_frame;
pub use vectored::lemma_frame_neutral;
pub use vectored::lemma_frame_swap_restore;
pub use vectored::opt_view;
