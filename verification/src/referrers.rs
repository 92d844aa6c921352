use vstd::prelude::*;

use crate::errors::AuctionError;

verus! {

/// Fixed capacity of one auction's referrer whitelist.
pub const MAX_REFERRERS: usize = 40;

/// The bounded, append-only set of identities eligible for referral fees on
/// one auction. Entries are account addresses; uniqueness is enforced on
/// append and nothing is ever removed.
#[derive(Clone, Debug, PartialEq, Eq)]
pub struct Referrers {
    /// The occupied entries, in order of insertion.
    pub referrers: Vec<u64>,
    /// Allocator marker for the whitelist's address; not business data.
    pub bump: u8,
}

impl Referrers {
    /// The whitelist's invariant: never over capacity and free of duplicates.
    pub open spec fn wf(self) -> bool {
        &&& self.referrers@.len() <= MAX_REFERRERS
        &&& forall|i: int, j: int|
            0 <= i < j < self.referrers@.len() ==> self.referrers@[i] != self.referrers@[j]
    }

    /// Whether `referrer` is on the whitelist.
    pub open spec fn spec_contains(self, referrer: u64) -> bool {
        self.referrers@.contains(referrer)
    }

    /// An empty whitelist, created lazily on the first append for an auction.
    pub fn new(bump: u8) -> (r: Referrers)
        ensures
            r.wf(),
            r.referrers@ == Seq::<u64>::empty(),
            r.bump == bump,
    {
        Referrers { referrers: Vec::new(), bump }
    }

    /// Membership test over the occupied entries.
    pub fn contains(&self, referrer: u64) -> (r: bool)
        ensures
            r == self.spec_contains(referrer),
    {
        let mut i: usize = 0;
        while i < self.referrers.len()
            invariant
                i <= self.referrers@.len(),
                forall|k: int| 0 <= k < i ==> self.referrers@[k] != referrer,
            decreases self.referrers@.len() - i,
        {
            if self.referrers[i] == referrer {
                assert(self.referrers@[i as int] == referrer);
                return true;
            }
            i = i + 1;
        }
        false
    }

    /// Appends `account` to the whitelist.
    ///
    /// Fails with `ReferrersListFull` when the set already holds
    /// `MAX_REFERRERS` entries, and with `ExistingReferrer` when `account` is
    /// already present; either failure leaves the whitelist unchanged. On
    /// success `account` becomes the last entry and nothing else moves.
    pub fn whitelist_referrer(&mut self, account: u64) -> (r: Result<(), AuctionError>)
        requires
            old(self).wf(),
        ensures
            final(self).wf(),
            final(self).bump == old(self).bump,
            old(self).referrers@.len() >= MAX_REFERRERS ==> {
                &&& r == Err::<(), AuctionError>(AuctionError::ReferrersListFull)
                &&& *final(self) == *old(self)
            },
            old(self).referrers@.len() < MAX_REFERRERS && old(self).spec_contains(account) ==> {
                &&& r == Err::<(), AuctionError>(AuctionError::ExistingReferrer)
                &&& *final(self) == *old(self)
            },
            old(self).referrers@.len() < MAX_REFERRERS && !old(self).spec_contains(account) ==> {
                &&& r == Ok::<(), AuctionError>(())
                &&& final(self).referrers@ == old(self).referrers@.push(account)
            },
    {
        if self.referrers.len() >= MAX_REFERRERS {
            return Err(AuctionError::ReferrersListFull);
        }
        if self.contains(account) {
            return Err(AuctionError::ExistingReferrer);
        }
        self.referrers.push(account);
        proof {
            let s = self.referrers@;
            assert forall|i: int, j: int| 0 <= i < j < s.len() implies s[i] != s[j] by {
                if j == s.len() - 1 {
                    assert(s[i] == old(self).referrers@[i]);
                    assert(!old(self).referrers@.contains(account));
                }
            }
        }
        Ok(())
    }
}

} // verus!
