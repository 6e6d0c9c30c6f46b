//! A bridge layer between a compiled extension module and a host runtime
//! that exposes a table of optional function pointers.
//!
//! The host reports errors out-of-band through a single pending-exit slot;
//! this crate models that slot, the call-dispatch discipline that drains it
//! after every primitive call, and the ownership-transfer protocol that
//! hands boxed extension data to the host's garbage collector and checks a
//! per-type finalizer identity when reading it back.

pub mod convert;
pub mod env;
pub mod exit;
pub mod table;
pub mod transfer;

pub use env::{Env, HostOutcome, Value};
pub use exit::{Error, PendingExit};
pub use table::{FuncId, Table};
pub use transfer::{Transfer, UserPtr, UserPtrStore};
