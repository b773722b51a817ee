use vstd::prelude::*;

use crate::errors::AuctionError;
use crate::state::in_sync;
use crate::state::AssetRecord;
use crate::state::Auction;
use crate::state::Vault;

verus! {

/// One auction-creation call: the prospective seller, the asset, the
/// outcome of the collection-membership check, and the derived addresses
/// and artifacts of the two records the call brings into being.
///
/// The record and vault addresses are derived deterministically from the
/// asset identifier by the host, each under its own tag, so any party can
/// locate them later without an index; the bumps are the artifacts with
/// which the engine re-derives its authority over them.
#[derive(Clone, Copy, Debug, PartialEq, Eq)]
pub struct CreateAuction {
    /// The prospective seller, who must control the asset.
    pub payer: u64,
    /// The asset to put under sale.
    pub mint: u64,
    /// Whether the asset's membership in the required collection was
    /// verified. The check itself is the metadata collaborator's work;
    /// the engine only refuses to proceed without it.
    pub collection_verified: bool,
    /// The auction record's derived ledger address.
    pub auction_address: u64,
    /// Derivation artifact for the auction record's address.
    pub auction_bump: u8,
    /// The vault's derived ledger address.
    pub vault_address: u64,
    /// Derivation artifact for the vault's address.
    pub vault_bump: u8,
}

impl CreateAuction {
    /// The first violated precondition, in the order the engine checks
    /// them, or `None` when creation goes through.
    pub open spec fn rejection(self, asset: AssetRecord) -> Option<AuctionError> {
        if !self.collection_verified {
            Some(AuctionError::InvalidCollection)
        } else if asset.owner != self.payer {
            Some(AuctionError::Unauthorized)
        } else {
            None
        }
    }

    /// The record a successful creation initializes: the given window
    /// and pricing rule, no bid and no bidder yet.
    pub open spec fn fresh_auction(
        self,
        start_time: i64,
        deadline: i64,
        min_price: u64,
        min_increment: Option<u64>,
    ) -> Auction {
        Auction {
            start_time,
            deadline,
            min_price,
            min_increment: match min_increment {
                Some(step) => step,
                None => 0u64,
            },
            current_bidder: None,
            current_bid: None,
            mint: self.mint,
            maker: self.payer,
            bump: self.auction_bump,
        }
    }

    /// The vault a successful creation initializes: empty, at the
    /// derived address.
    pub open spec fn fresh_vault(self) -> Vault {
        Vault { address: self.vault_address, balance: 0u64, bump: self.vault_bump }
    }

    /// Initialize the auction record with the bid pair absent. The
    /// minimum increment is optional and defaults to zero.
    pub fn create(
        &self,
        start_time: i64,
        deadline: i64,
        min_price: u64,
        min_increment: Option<u64>,
    ) -> (a: Auction)
        ensures
            a == self.fresh_auction(start_time, deadline, min_price, min_increment),
            a.wf(),
    {
        Auction {
            start_time,
            deadline,
            min_price,
            min_increment: match min_increment {
                Some(step) => step,
                None => 0,
            },
            current_bidder: None,
            current_bid: None,
            mint: self.mint,
            maker: self.payer,
            bump: self.auction_bump,
        }
    }

    /// Grant the asset's transfer right to the auction record as its
    /// delegate. Only the owner can grant, and the grant must precede
    /// the freeze, since the freeze targets the delegate.
    pub fn approve(&self, asset: &mut AssetRecord)
        requires
            old(asset).owner == self.payer,
        ensures
            final(asset).delegate == Some(self.auction_address),
            final(asset).owner == old(asset).owner,
            final(asset).frozen == old(asset).frozen,
    {
        asset.delegate = Some(self.auction_address);
    }

    /// Freeze the asset under its delegate, completing the custody lock.
    pub fn freeze(&self, asset: &mut AssetRecord)
        requires
            old(asset).delegate is Some,
        ensures
            final(asset).frozen,
            final(asset).owner == old(asset).owner,
            final(asset).delegate == old(asset).delegate,
    {
        asset.frozen = true;
    }
}

/// Put an asset under auction: initialize the record and the vault, then
/// take the custody lock — delegation first, freeze second.
///
/// The asset must come in free of custody: no outstanding delegate and
/// not frozen, as a freshly held asset is.
///
/// Fails with `InvalidCollection` when the membership check did not pass
/// and with `Unauthorized` when the asset is not under the caller's
/// control; a rejected call leaves the asset record unchanged. On
/// success the returned record has no bid, the returned vault is empty,
/// and the asset is locked under the new record's address while still
/// sitting with the maker.
pub fn create_auction(
    ctx: &CreateAuction,
    asset: &mut AssetRecord,
    start_time: i64,
    deadline: i64,
    min_price: u64,
    min_increment: Option<u64>,
) -> (r: Result<(Auction, Vault), AuctionError>)
    requires
        old(asset).delegate is None,
        !old(asset).frozen,
    ensures
        match r {
            Ok((a, v)) => {
                &&& ctx.rejection(*old(asset)) is None
                &&& a == ctx.fresh_auction(start_time, deadline, min_price, min_increment)
                &&& v == ctx.fresh_vault()
                &&& a.wf()
                &&& in_sync(a, v)
                &&& final(asset).owner == old(asset).owner
                &&& final(asset).locked_under(ctx.auction_address)
            },
            Err(e) => {
                &&& ctx.rejection(*old(asset)) == Some(e)
                &&& *final(asset) == *old(asset)
            },
        },
{
    if !ctx.collection_verified {
        return Err(AuctionError::InvalidCollection);
    }
    if asset.owner != ctx.payer {
        return Err(AuctionError::Unauthorized);
    }
    let auction = ctx.create(start_time, deadline, min_price, min_increment);
    let vault = Vault { address: ctx.vault_address, balance: 0, bump: ctx.vault_bump };
    ctx.approve(asset);
    ctx.freeze(asset);
    Ok((auction, vault))
}

} // verus!
