//! A generational arena: reusable slots that hand out small copyable handles,
//! detect stale handles by generation counters, and track read/write borrows at
//! run time.
//!
//! Borrows are tokens (`GenerationalRef`, `GenerationalRefMut`) that the arena
//! records when it hands them out and forgets when they are released. The value
//! behind a token is reached through the arena that issued it.
use vstd::prelude::*;

pub mod backend;
pub mod borrow;
pub mod error;
pub mod gen_box;
pub mod global;
pub mod laws;
pub mod references;
pub mod signal;
pub mod storage;
pub mod sync;

pub use backend::Storage;
pub use borrow::MemoryLocationBorrowInfo;
pub use error::{
    AlreadyBorrowedError, AlreadyBorrowedMutError, BorrowError, BorrowMutError, Location,
    ValueDroppedError,
};
pub use gen_box::{GenerationalBox, GenerationalBoxId};
pub use global::{GlobalMemo, GlobalSignal};
pub use references::{GenerationalRef, GenerationalRefMut, MappedRef, MappedRefMut};
pub use signal::Signal;
pub use storage::{MemoryLocation, SlotView, UnsyncStorage, MAX_GENERATION};
pub use sync::SyncStorage;

verus! {

} // verus!
