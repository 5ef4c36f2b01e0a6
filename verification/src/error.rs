//! What can go wrong while a working copy is synchronised.

use vstd::prelude::*;

verus! {

/// The operation whose run of the external tool ended unsuccessfully.
#[derive(Clone, Copy, Debug, PartialEq, Eq)]
pub enum Failure {
    Clone,
    Fetch,
    Checkout,
}

impl Failure {
    /// The text that describes the failure.
    pub open spec fn text(self) -> Seq<char> {
        match self {
            Failure::Clone => "Failed to clone"@,
            Failure::Fetch => "Failed to fetch"@,
            Failure::Checkout => "Failed to checkout"@,
        }
    }

    /// The failure in words.
    pub fn message(&self) -> (message: String)
        ensures
            message@ == self.text(),
    {
        match self {
            Failure::Clone => "Failed to clone".to_owned(),
            Failure::Fetch => "Failed to fetch".to_owned(),
            Failure::Checkout => "Failed to checkout".to_owned(),
        }
    }
}

/// Why an operation did not succeed. `E` is the driver's input/output error.
#[derive(Debug, PartialEq, Eq)]
pub enum SyncError<E> {
    /// The lock file could not be created or exclusively obtained.
    Lock(E),
    /// The external tool could not be launched.
    Spawn(E),
    /// The external tool ran and reported failure.
    OperationFailed(Failure),
}

} // verus!
