//! Exclusive, cross-process management of one local working copy of a
//! version-controlled repository.
//!
//! The crate decides; it performs no input or output itself. A driver creates
//! and locks the lock file, looks at the file system and runs the external
//! tool, and reports each outcome back.

pub mod clonable;
pub mod command;
pub mod error;
pub mod exclusion;
pub mod lock;
pub mod repository;
pub mod runs;
pub mod session;

pub use clonable::GitClonable;
pub use command::Invocation;
pub use error::{Failure, SyncError};
pub use lock::Lock;
pub use repository::Repository;
pub use session::{Locking, Operation, Probing, Running, Step, Task};
