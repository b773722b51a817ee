use vstd::prelude::*;

use crate::errors::AuctionError;
use crate::state::in_sync;
use crate::state::Auction;
use crate::state::Transfer;
use crate::state::Vault;

verus! {

/// One bid call: the signer, the clock value observed inside the call,
/// and the account the caller claims held the preceding high bid.
///
/// The preceding-bidder parameter is an optimistic-concurrency token: the
/// record keeps a single current slot instead of a bid history, so the
/// engine disburses a refund only to the account the caller names, and
/// only after checking that it matches the stored state. A caller acting
/// on a stale view is rejected instead of silently overwriting.
#[derive(Clone, Copy, Debug, PartialEq, Eq)]
pub struct Bid {
    /// The bidder placing and funding the new bid.
    pub bidder: u64,
    /// The account the caller claims is the stored current bidder;
    /// absent exactly when the caller believes no bid was placed yet.
    pub preceding_bidder: Option<u64>,
    /// The clock value observed inside this call.
    pub now: i64,
}

impl Bid {
    /// The first violated precondition, in the order the engine checks
    /// them, or `None` when the bid is accepted.
    pub open spec fn rejection(self, a: Auction, lamports: u64) -> Option<AuctionError> {
        if self.now < a.start_time {
            Some(AuctionError::NotStarted)
        } else if self.now >= a.deadline {
            Some(AuctionError::Ended)
        } else if lamports <= a.floor() {
            Some(AuctionError::BidTooLow)
        } else if self.preceding_bidder != a.current_bidder {
            Some(AuctionError::BadPrecedingBidder)
        } else {
            None
        }
    }

    /// The record after this bid is accepted: the offered pair replaces
    /// the current one and nothing else moves.
    pub open spec fn recorded(self, a: Auction, lamports: u64) -> Auction {
        Auction {
            current_bidder: Some(self.bidder),
            current_bid: Some(lamports),
            ..a
        }
    }

    /// The transfers an accepted bid issues, in order: first the refund
    /// of the displaced bid from the vault to the preceding bidder (when
    /// one exists), then the new escrow from the bidder into the vault.
    pub open spec fn transfers(self, a: Auction, v: Vault, lamports: u64) -> Seq<Transfer> {
        let escrow = Transfer { from: self.bidder, to: v.address, amount: lamports };
        match (a.current_bidder, a.current_bid) {
            (Some(prev), Some(held)) => seq![
                Transfer { from: v.address, to: prev, amount: held },
                escrow,
            ],
            _ => seq![escrow],
        }
    }

    /// Place a bid of `lamports`.
    ///
    /// On acceptance the displaced bid (if any) is refunded in full from
    /// the vault to the preceding bidder, the new amount is escrowed, and
    /// the record's current pair is replaced; the returned transfers are
    /// what the ledger must perform, refund first. On rejection nothing
    /// changes and the error names the first violated precondition.
    pub fn bid(&self, auction: &mut Auction, vault: &mut Vault, lamports: u64) -> (r: Result<
        Vec<Transfer>,
        AuctionError,
    >)
        requires
            old(auction).wf(),
            in_sync(*old(auction), *old(vault)),
        ensures
            final(auction).wf(),
            in_sync(*final(auction), *final(vault)),
            final(vault).address == old(vault).address,
            final(vault).bump == old(vault).bump,
            match r {
                Ok(ts) => {
                    &&& self.rejection(*old(auction), lamports) is None
                    &&& *final(auction) == self.recorded(*old(auction), lamports)
                    &&& final(vault).balance == lamports
                    &&& ts@ == self.transfers(*old(auction), *old(vault), lamports)
                },
                Err(e) => {
                    &&& self.rejection(*old(auction), lamports) == Some(e)
                    &&& *final(auction) == *old(auction)
                    &&& *final(vault) == *old(vault)
                },
            },
    {
        if self.now < auction.start_time {
            return Err(AuctionError::NotStarted);
        }
        if self.now >= auction.deadline {
            return Err(AuctionError::Ended);
        }
        let clears_floor = match auction.current_bid {
            Some(held) => {
                if auction.min_increment > u64::MAX - held {
                    // The floor exceeds the largest representable amount,
                    // so no offer can clear it.
                    false
                } else {
                    lamports > held + auction.min_increment
                }
            },
            None => lamports > auction.min_price,
        };
        if !clears_floor {
            return Err(AuctionError::BidTooLow);
        }
        if self.preceding_bidder != auction.current_bidder {
            return Err(AuctionError::BadPrecedingBidder);
        }
        let mut transfers: Vec<Transfer> = Vec::new();
        // Refund first: the escrow swap must leave the vault holding
        // exactly the recorded bid even if the ledger aborts between the
        // two transfers and rolls the whole call back.
        match (auction.current_bidder, auction.current_bid) {
            (Some(prev), Some(held)) => {
                transfers.push(Transfer { from: vault.address, to: prev, amount: held });
                vault.balance = vault.balance - held;
            },
            _ => {},
        }
        transfers.push(Transfer { from: self.bidder, to: vault.address, amount: lamports });
        vault.balance = vault.balance + lamports;
        auction.current_bid = Some(lamports);
        auction.current_bidder = Some(self.bidder);
        Ok(transfers)
    }
}

} // verus!
