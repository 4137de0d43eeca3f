//! Lifecycle manager for a singleton program-derived resource account.
//!
//! The manager derives a deterministic, off-curve address from a seed and the
//! owning program's identity, and creates, initializes and later closes a
//! resource record held at that address.  The hosting environment's account
//! store and the two services it offers (account allocation and resource
//! management) are modelled as verified transitions over an explicit store,
//! so that every flow's effect on the store is stated and proved.

use vstd::prelude::*;

pub mod addr;
pub mod derive;
pub mod error;
pub mod laws;
pub mod router;
pub mod services;
pub mod state;

verus! {

/// Byte length of the fixed external resource record that the provisioning
/// flow allocates and the resource service initializes.
pub const RESOURCE_RECORD_LEN: u64 = 165;

/// Minimum funding in lamports for a freshly allocated record account, even
/// on a network whose rent schedule would charge nothing.
pub const FUNDING_FLOOR: u64 = 1;

} // verus!
