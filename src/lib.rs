//! Keyed wakeup coalescing.
//!
//! Many sub-tasks share one outer waker. Each sub-task gets a cheap [`Waker`]
//! bound to a key; waking it records the key in a shared pending set and wakes
//! the outer waker. The owner then drains the set to learn exactly which keys
//! fired since it last looked.
//!
//! [`Waker`]: std::task::Waker

mod outside;
pub mod laws;
pub mod pending;
pub mod set_waker;

pub use pending::SetWakerInner;
pub use set_waker::{KeyWaker, SetWaker};
