use vstd::prelude::*;

use crate::bid::Bid;
use crate::claim_nft::ClaimNFT;
use crate::claim_sol::ClaimSol;
use crate::state::in_sync;
use crate::state::Auction;
use crate::state::Transfer;
use crate::state::Vault;

verus! {

/// One attempted bid in a history: the call and the offered amount.
#[derive(Clone, Copy, Debug, PartialEq, Eq)]
pub struct BidEvent {
    pub call: Bid,
    pub lamports: u64,
}

/// The record after one attempted bid: updated when the bid is
/// accepted, untouched when it is rejected.
pub open spec fn bid_step(a: Auction, e: BidEvent) -> Auction {
    if e.call.rejection(a, e.lamports) is None {
        e.call.recorded(a, e.lamports)
    } else {
        a
    }
}

/// The record after a whole history of attempted bids, applied in order.
pub open spec fn run_bids(a: Auction, events: Seq<BidEvent>) -> Auction
    decreases events.len(),
{
    if events.len() == 0 {
        a
    } else {
        run_bids(bid_step(a, events.first()), events.drop_first())
    }
}

/// The refund one attempted bid issues: the displaced bid from the
/// vault back to the displaced bidder, when the bid is accepted and a
/// previous bidder exists; nothing otherwise.
pub open spec fn step_refund(a: Auction, e: BidEvent, vault_address: u64) -> Seq<Transfer> {
    if e.call.rejection(a, e.lamports) is None {
        match (a.current_bidder, a.current_bid) {
            (Some(prev), Some(held)) => seq![
                Transfer { from: vault_address, to: prev, amount: held },
            ],
            _ => seq![],
        }
    } else {
        seq![]
    }
}

/// Every refund a history of attempted bids issues, in order.
pub open spec fn run_refunds(a: Auction, events: Seq<BidEvent>, vault_address: u64) -> Seq<
    Transfer,
>
    decreases events.len(),
{
    if events.len() == 0 {
        seq![]
    } else {
        step_refund(a, events.first(), vault_address) + run_refunds(
            bid_step(a, events.first()),
            events.drop_first(),
            vault_address,
        )
    }
}

/// The sum of all refunds a history issues.
pub open spec fn refund_total(a: Auction, events: Seq<BidEvent>, vault_address: u64) -> int
    decreases events.len(),
{
    if events.len() == 0 {
        0
    } else {
        let head = step_refund(a, events.first(), vault_address);
        let head_amount: int = if head.len() == 0 {
            0
        } else {
            head[0].amount as int
        };
        head_amount + refund_total(bid_step(a, events.first()), events.drop_first(), vault_address)
    }
}

/// How many bids of a history are accepted.
pub open spec fn accepted_count(a: Auction, events: Seq<BidEvent>) -> int
    decreases events.len(),
{
    if events.len() == 0 {
        0
    } else {
        let head: int = if events.first().call.rejection(a, events.first().lamports) is None {
            1
        } else {
            0
        };
        head + accepted_count(bid_step(a, events.first()), events.drop_first())
    }
}

/// The sum of all accepted bid amounts of a history.
pub open spec fn accepted_total(a: Auction, events: Seq<BidEvent>) -> int
    decreases events.len(),
{
    if events.len() == 0 {
        0
    } else {
        let head: int = if events.first().call.rejection(a, events.first().lamports) is None {
            events.first().lamports as int
        } else {
            0
        };
        head + accepted_total(bid_step(a, events.first()), events.drop_first())
    }
}

/// Monotonic bidding, one step: an accepted bid strictly exceeds the
/// bid it displaces by more than the minimum increment — ties are
/// rejected — and a first bid strictly exceeds the minimum price; the
/// accepted amount becomes the recorded bid.
pub proof fn lemma_monotonic_bidding(ctx: Bid, a: Auction, lamports: u64)
    requires
        ctx.rejection(a, lamports) is None,
    ensures
        a.current_bid matches Some(held) ==> lamports > held + a.min_increment,
        a.current_bid is None ==> lamports > a.min_price,
        ctx.recorded(a, lamports).current_bid == Some(lamports),
{
}

/// A run never touches the auction's window, pricing rule or parties,
/// and keeps the record well-formed.
pub proof fn lemma_run_preserves_frame(a: Auction, events: Seq<BidEvent>)
    ensures
        run_bids(a, events).start_time == a.start_time,
        run_bids(a, events).deadline == a.deadline,
        run_bids(a, events).min_price == a.min_price,
        run_bids(a, events).min_increment == a.min_increment,
        run_bids(a, events).mint == a.mint,
        run_bids(a, events).maker == a.maker,
        run_bids(a, events).bump == a.bump,
        a.wf() ==> run_bids(a, events).wf(),
    decreases events.len(),
{
    if events.len() > 0 {
        lemma_run_preserves_frame(bid_step(a, events.first()), events.drop_first());
    }
}

/// Appending one event to a history runs the history first and then
/// takes the one step.
pub proof fn lemma_run_snoc(a: Auction, events: Seq<BidEvent>, e: BidEvent)
    ensures
        run_bids(a, events.push(e)) == bid_step(run_bids(a, events), e),
    decreases events.len(),
{
    assert(run_bids(a, events.push(e)) == run_bids(
        bid_step(a, events.push(e).first()),
        events.push(e).drop_first(),
    ));
    if events.len() == 0 {
        assert(events.push(e).first() == e);
        assert(events.push(e).drop_first() =~= Seq::<BidEvent>::empty());
        assert(run_bids(bid_step(a, e), Seq::<BidEvent>::empty()) == bid_step(a, e));
        assert(run_bids(a, events) == a);
    } else {
        assert(events.push(e).first() == events.first());
        assert(events.push(e).drop_first() =~= events.drop_first().push(e));
        lemma_run_snoc(bid_step(a, events.first()), events.drop_first(), e);
        assert(run_bids(a, events) == run_bids(bid_step(a, events.first()), events.drop_first()));
    }
}

/// Monotonic bidding, along any history: each bid accepted at position
/// `i` strictly exceeds the bid standing after the first `i` events by
/// more than the minimum increment, and becomes the recorded bid.
pub proof fn lemma_monotonic_bidding_run(a: Auction, events: Seq<BidEvent>, i: int)
    requires
        0 <= i < events.len(),
        events[i].call.rejection(run_bids(a, events.take(i)), events[i].lamports) is None,
    ensures
        run_bids(a, events.take(i + 1)).current_bid == Some(events[i].lamports),
        run_bids(a, events.take(i)).current_bid matches Some(held) ==> events[i].lamports > held
            + a.min_increment,
        run_bids(a, events.take(i)).current_bid is None ==> events[i].lamports > a.min_price,
{
    assert(events.take(i + 1) =~= events.take(i).push(events[i]));
    lemma_run_snoc(a, events.take(i), events[i]);
    lemma_run_preserves_frame(a, events.take(i));
}

/// Vault conservation, one step: starting from a vault in sync with the
/// record, an accepted bid leaves the vault holding exactly the new
/// recorded bid, and a successful fund claim leaves it empty with the
/// whole balance paid to the maker.
pub proof fn lemma_vault_conservation(ctx: Bid, a: Auction, v: Vault, lamports: u64)
    requires
        a.wf(),
        in_sync(a, v),
    ensures
        ctx.rejection(a, lamports) is None ==> in_sync(
            ctx.recorded(a, lamports),
            (Vault { balance: lamports, ..v }),
        ),
        ClaimSol::payout(a, v) matches Some(t) ==> t.amount == v.balance && t.to == a.maker
            && t.from == v.address,
        a.current_bid is None ==> in_sync(a, (Vault { balance: 0, ..v })),
{
}

/// Refund completeness, one step: an accepted bid that displaces a
/// previous bidder issues exactly two transfers — first the refund of
/// exactly the displaced amount from the vault back to the displaced
/// bidder, then the new escrow from the new bidder into the vault — and
/// a first bid issues only the escrow.
pub proof fn lemma_refund_completeness(ctx: Bid, a: Auction, v: Vault, lamports: u64)
    requires
        a.wf(),
        in_sync(a, v),
        ctx.rejection(a, lamports) is None,
    ensures
        a.current_bidder matches Some(prev) ==> ctx.transfers(a, v, lamports)
            =~= seq![
            (Transfer { from: v.address, to: prev, amount: a.escrowed() }),
            (Transfer { from: ctx.bidder, to: v.address, amount: lamports }),
        ],
        a.current_bidder is None ==> ctx.transfers(a, v, lamports) =~= seq![
            (Transfer { from: ctx.bidder, to: v.address, amount: lamports }),
        ],
{
}

/// The transfers an accepted bid issues are exactly the refund the run
/// model records for that step, followed by the new escrow — so the
/// run-level refund accounting below speaks of the very transfers the
/// executable operation reports.
pub proof fn lemma_step_transfers(ctx: Bid, a: Auction, v: Vault, lamports: u64)
    requires
        a.wf(),
        ctx.rejection(a, lamports) is None,
    ensures
        ctx.transfers(a, v, lamports) =~= step_refund(
            a,
            (BidEvent { call: ctx, lamports }),
            v.address,
        ).push((Transfer { from: ctx.bidder, to: v.address, amount: lamports })),
{
}

/// Refund completeness, along any history: over a whole run every
/// displaced bidder is refunded exactly once — the refunds number one
/// per accepted bid except the one still standing — and the refunded
/// amounts together with the amount still escrowed account for every
/// accepted bid amount, so nothing is kept twice and nothing is lost.
pub proof fn lemma_refund_exactly_once(a: Auction, events: Seq<BidEvent>, vault_address: u64)
    requires
        a.wf(),
    ensures
        refund_total(a, events, vault_address) + run_bids(a, events).escrowed() == accepted_total(
            a,
            events,
        ) + a.escrowed(),
        run_refunds(a, events, vault_address).len() + (if run_bids(a, events).current_bid is Some {
            1int
        } else {
            0int
        }) == accepted_count(a, events) + (if a.current_bid is Some {
            1int
        } else {
            0int
        }),
    decreases events.len(),
{
    if events.len() > 0 {
        let e = events.first();
        let a1 = bid_step(a, e);
        lemma_refund_exactly_once(a1, events.drop_first(), vault_address);
    }
}

/// Mutual exclusivity of claimants: the asset claim can succeed only
/// for the stored current bidder — or for the maker when no bid was
/// placed; any other caller is rejected whatever the clock says.
pub proof fn lemma_claimant_exclusive(ctx: ClaimNFT, a: Auction)
    requires
        ctx.signer != ClaimNFT::claimant(a),
    ensures
        ctx.rejection(a) is Some,
{
}

/// The no-bid path: with no bid recorded and the vault in sync — hence
/// empty — the fund claim owes no transfer and is a harmless no-op, and
/// the asset is owed back to the maker alone.
pub proof fn lemma_no_bid_path(a: Auction, v: Vault)
    requires
        a.wf(),
        a.current_bid is None,
        in_sync(a, v),
    ensures
        ClaimSol::payout(a, v) is None,
        ClaimNFT::claimant(a) == a.maker,
{
}

} // verus!
