use vstd::prelude::*;

verus! {

/// One native-currency transfer that the engine instructs the ledger to
/// perform. Accounts are named by their ledger address.
#[derive(Clone, Copy, Debug, PartialEq, Eq, Structural)]
pub struct Transfer {
    pub from: u64,
    pub to: u64,
    pub amount: u64,
}

/// The auction record: the state machine governing one asset's sale.
///
/// `current_bid` and `current_bidder` are both absent until the first
/// accepted bid and both present together thereafter; `bump` is the
/// derivation artifact with which the engine re-derives its authority
/// over the record's address.
#[derive(Clone, Copy, Debug, PartialEq, Eq)]
pub struct Auction {
    /// Absolute timestamp (integer seconds) from which bids are taken.
    pub start_time: i64,
    /// Absolute timestamp at which bidding closes and claims open.
    pub deadline: i64,
    /// The amount the first bid must strictly exceed.
    pub min_price: u64,
    /// The amount by which a new bid must exceed the current one.
    pub min_increment: u64,
    /// The highest bidder so far, if any bid was accepted.
    pub current_bidder: Option<u64>,
    /// The highest accepted bid so far.
    pub current_bid: Option<u64>,
    /// The asset under sale.
    pub mint: u64,
    /// The seller who created the auction.
    pub maker: u64,
    /// Derivation artifact for the record's own address.
    pub bump: u8,
}

impl Auction {
    /// The bid pair is all-or-nothing: a bid amount is recorded exactly
    /// when a bidder is.
    pub open spec fn wf(self) -> bool {
        self.current_bid is Some <==> self.current_bidder is Some
    }

    /// The floor a new bid must strictly exceed: the current bid plus
    /// the minimum increment, or the minimum price before any bid.
    pub open spec fn floor(self) -> int {
        match self.current_bid {
            Some(b) => b + self.min_increment,
            None => self.min_price as int,
        }
    }

    /// The amount currently held in escrow for this auction: the
    /// current bid, or zero when no bid was accepted yet.
    pub open spec fn escrowed(self) -> u64 {
        match self.current_bid {
            Some(b) => b,
            None => 0u64,
        }
    }
}

/// The escrow vault: a per-auction ledger address that custodies bid
/// funds. The engine asserts authority over it through `bump`, its
/// derivation artifact, never through a stored key.
#[derive(Clone, Copy, Debug, PartialEq, Eq)]
pub struct Vault {
    /// The vault's ledger address, derived from the asset identifier.
    pub address: u64,
    /// Escrowed funds currently held at the vault address.
    pub balance: u64,
    /// Derivation artifact for the vault address.
    pub bump: u8,
}

/// The vault holds exactly the funds escrowed for the record's current
/// bid. Every successful operation preserves this.
pub open spec fn in_sync(a: Auction, v: Vault) -> bool {
    v.balance == a.escrowed()
}

/// The asset's ownership and delegation record, as the ledger keeps it.
///
/// While an auction is open the record carries a custody lock:
/// the auction record is its delegate and the asset is frozen, so it
/// cannot move until a claim releases it.
#[derive(Clone, Copy, Debug, PartialEq, Eq)]
pub struct AssetRecord {
    /// The holder of the asset.
    pub owner: u64,
    /// The address delegated the asset's transfer right, if any.
    pub delegate: Option<u64>,
    /// Whether the asset is frozen and so cannot be transferred.
    pub frozen: bool,
}

impl AssetRecord {
    /// The custody lock granted at creation and held until a claim:
    /// delegated to the given address and frozen under it.
    pub open spec fn locked_under(self, delegate: u64) -> bool {
        self.delegate == Some(delegate) && self.frozen
    }
}

} // verus!
