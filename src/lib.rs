//! A biased reader-writer lock (BRAVO).
//!
//! Readers of a lock whose bias is armed skip the underlying reader-writer
//! lock: they publish a claim in a slot of a shared table of visible readers
//! instead. A writer retracts the bias and confirms that no claim for its lock
//! is still in flight before it may mutate the protected value.
//!
//! The table is an ordinary value that every lock sharing it is handed, and
//! a reader names its thread by an integer identity, from which its slot is
//! hashed. Each operation is one step of the protocol from lock and table
//! state to new state and result; the steps are stated as spec functions in
//! `lock`, and `laws` proves what they guarantee together.
use vstd::prelude::*;

pub mod error;
pub mod hash;
pub mod laws;
pub mod lock;
pub mod table;

pub use error::{BravoRWlockErrorType, BravoRWlockResult};
pub use hash::{bravo_hash, mix32, NR_ENTRIES};
pub use lock::{BravoRWlock, BravoRWlockReadGuard, BravoRWlockWriteGuard, LockView};
pub use table::{Claim, VisibleReaders};

verus! {

} // verus!
