//! Failures that abort a build.

use vstd::prelude::*;

verus! {

/// A failure while resolving or finalizing a transaction.  Every failure
/// aborts the whole build; no partial transaction is ever returned.
#[derive(Debug, Clone, Copy, PartialEq, Eq, Structural)]
pub enum BuildError {
    /// A signed input's owning address has no registered secret key.
    MissingSignature,
    /// Explicit witnesses plus pending signature keys exceed the 256-slot
    /// witness limit.
    TooManyWitnesses,
    /// The external dry-run gas estimator reported a failure.
    DryRunFailed,
}

} // verus!
