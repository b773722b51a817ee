use vstd::prelude::*;

use crate::errors::AuctionError;
use crate::state::AssetRecord;
use crate::state::Auction;

verus! {

/// One claim of the auctioned asset: the signer and the clock value
/// observed inside the call. After the deadline the winning bidder — or
/// the maker, when nobody bid — takes the asset out of custody.
#[derive(Clone, Copy, Debug, PartialEq, Eq)]
pub struct ClaimNFT {
    /// The caller asking for the asset.
    pub signer: u64,
    /// The clock value observed inside this call.
    pub now: i64,
}

impl ClaimNFT {
    /// The one party entitled to the asset once the auction has ended:
    /// the stored current bidder, or the maker when no bid was placed.
    pub open spec fn claimant(a: Auction) -> u64 {
        match a.current_bidder {
            Some(winner) => winner,
            None => a.maker,
        }
    }

    /// The first violated precondition, in the order the engine checks
    /// them, or `None` when the claim goes through.
    pub open spec fn rejection(self, a: Auction) -> Option<AuctionError> {
        if self.now < a.deadline {
            Some(AuctionError::NotEnded)
        } else if self.signer != Self::claimant(a) {
            Some(AuctionError::WrongClaimant)
        } else {
            None
        }
    }

    /// Release the asset to its rightful claimant.
    ///
    /// The asset must still carry the custody lock taken at creation and
    /// still sit with the maker. On success the lock is released first —
    /// a frozen asset cannot move — and the asset then passes to the
    /// claimant, both authorized through the record's derivation
    /// artifact; afterwards no delegation is outstanding. On rejection
    /// the record is untouched.
    pub fn claim_nft(&self, auction: &Auction, asset: &mut AssetRecord) -> (r: Result<
        (),
        AuctionError,
    >)
        requires
            old(asset).delegate is Some,
            old(asset).frozen,
            old(asset).owner == auction.maker,
        ensures
            match r {
                Ok(()) => {
                    &&& self.rejection(*auction) is None
                    &&& final(asset).owner == self.signer
                    &&& final(asset).delegate is None
                    &&& !final(asset).frozen
                },
                Err(e) => {
                    &&& self.rejection(*auction) == Some(e)
                    &&& *final(asset) == *old(asset)
                },
            },
    {
        if self.now < auction.deadline {
            return Err(AuctionError::NotEnded);
        }
        let entitled = match auction.current_bidder {
            Some(winner) => winner,
            None => auction.maker,
        };
        if self.signer != entitled {
            return Err(AuctionError::WrongClaimant);
        }
        // Thaw before moving: the transfer below is only possible once
        // the freeze is lifted.
        asset.frozen = false;
        asset.delegate = None;
        asset.owner = self.signer;
        Ok(())
    }
}

} // verus!
