use vstd::prelude::*;

use crate::errors::AuctionError;
use crate::state::Auction;
use crate::state::Transfer;
use crate::state::Vault;

verus! {

/// One claim of the escrowed funds: the signer and the clock value
/// observed inside the call. Only the maker may claim, and only once the
/// deadline has passed.
#[derive(Clone, Copy, Debug, PartialEq, Eq)]
pub struct ClaimSol {
    /// The caller asking for the payout.
    pub signer: u64,
    /// The clock value observed inside this call.
    pub now: i64,
}

impl ClaimSol {
    /// The first violated precondition, in the order the engine checks
    /// them, or `None` when the claim goes through.
    pub open spec fn rejection(self, a: Auction) -> Option<AuctionError> {
        if self.signer != a.maker {
            Some(AuctionError::Unauthorized)
        } else if self.now < a.deadline {
            Some(AuctionError::NotEnded)
        } else {
            None
        }
    }

    /// The payout a successful claim issues: the full vault balance to
    /// the maker, or nothing when the vault is already empty.
    pub open spec fn payout(a: Auction, v: Vault) -> Option<Transfer> {
        if v.balance > 0 {
            Some(Transfer { from: v.address, to: a.maker, amount: v.balance })
        } else {
            None
        }
    }

    /// Pay the winning funds out to the maker.
    ///
    /// On success the full vault balance moves to the maker, authorized
    /// through the vault's derivation artifact; with nothing escrowed —
    /// no bid was ever placed, or the funds were already claimed — the
    /// call is a safe no-op that issues no transfer. The record itself is
    /// never mutated by a claim.
    pub fn claim_sol(&self, auction: &Auction, vault: &mut Vault) -> (r: Result<
        Option<Transfer>,
        AuctionError,
    >)
        ensures
            final(vault).address == old(vault).address,
            final(vault).bump == old(vault).bump,
            match r {
                Ok(t) => {
                    &&& self.rejection(*auction) is None
                    &&& final(vault).balance == 0
                    &&& t == Self::payout(*auction, *old(vault))
                },
                Err(e) => {
                    &&& self.rejection(*auction) == Some(e)
                    &&& *final(vault) == *old(vault)
                },
            },
    {
        if self.signer != auction.maker {
            return Err(AuctionError::Unauthorized);
        }
        if self.now < auction.deadline {
            return Err(AuctionError::NotEnded);
        }
        if vault.balance > 0 {
            let amount = vault.balance;
            vault.balance = 0;
            Ok(Some(Transfer { from: vault.address, to: auction.maker, amount }))
        } else {
            Ok(None)
        }
    }
}

} // verus!
