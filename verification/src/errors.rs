//! The registry's failures; each aborts the call that raises it, with no
//! partial state change.

use vstd::prelude::*;

verus! {

/// Why a registry operation was rejected.
#[derive(Clone, Copy, Debug, PartialEq, Eq, Structural)]
pub enum Error {
    /// `set_admin` found the admin slot already filled.
    AlreadyInitialized,
    /// A read found nothing under the requested slot.
    NotFound,
    /// The signature did not verify, or the nonce did not match the ledger.
    AuthenticationFailed,
}

} // verus!
