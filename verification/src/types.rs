//! Plain value types shared by the pool and its collaborators.

use vstd::prelude::*;

verus! {

/// Identity of an account or contract instance.
pub type AccountId = u128;

/// An amount of underlying asset or of claim tokens.
pub type Balance = u128;

/// A block timestamp, as delivered by the host environment.
pub type Timestamp = u64;

/// The account identity used before a field is wired to a real address.
pub const ZERO_ADDRESS: AccountId = 0;

} // verus!
