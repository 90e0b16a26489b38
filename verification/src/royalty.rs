//! Royalty records: a beneficiary and a fractional share of secondary sales.
//! The library only validates the share's bounds; storing and paying
//! royalties belongs to the collection-metadata collaborator.

use vstd::prelude::*;

verus! {

/// One whole, in atomics: rates carry eighteen decimal digits, mirroring the
/// host chain's decimal type.
pub const RATE_ONE: u128 = 1_000_000_000_000_000_000;

/// A fractional rate in fixed-point form: `atomics` parts of `RATE_ONE`.
#[derive(Clone, Copy, Debug, PartialEq, Eq, Structural)]
pub struct Rate {
    pub atomics: u128,
}

impl Rate {
    /// The rate `x / 100`.
    pub fn percent(x: u64) -> (r: Rate)
        ensures
            r.atomics == x as int * 10_000_000_000_000_000,
    {
        Rate { atomics: (x as u128) * 10_000_000_000_000_000 }
    }
}

/// A royalty record: who is paid, and which fraction of a sale they receive.
#[derive(Clone, Debug, PartialEq, Eq)]
pub struct RoyaltyInfo {
    pub payment_address: String,
    pub share: Rate,
}

/// Why a royalty record was rejected.
#[derive(Clone, Copy, Debug, PartialEq, Eq, Structural)]
pub enum ValidationError {
    InvalidShare,
}

impl RoyaltyInfo {
    /// The share lies in `[0, 1]`.
    pub open spec fn share_valid(self) -> bool {
        self.share.atomics <= RATE_ONE
    }

    /// Accepts the record exactly when its share lies in `[0, 1]`; a share
    /// above one is rejected before any monetary instruction could be built
    /// from it.
    pub fn validate(&self) -> (r: Result<(), ValidationError>)
        ensures
            r is Ok <==> self.share_valid(),
            r is Err ==> r == Err::<(), ValidationError>(ValidationError::InvalidShare),
    {
        if self.share.atomics <= RATE_ONE {
            Ok(())
        } else {
            Err(ValidationError::InvalidShare)
        }
    }
}

} // verus!
