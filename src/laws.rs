use vstd::prelude::*;

use crate::market::{
    cancel_result, finalize_result, sent_by, trade_plan_of, trade_result, traded, TradePlan,
};
use crate::types::{
    no_bidder, AccountAddress, Address, ListState, Listing, ListingKey, MarketplaceError, SaleType,
};

verus! {

/// A trade whose sale type differs from the listing's is refused with
/// `NotMatchedSaleType` once the listing is on sale and the payment clears
/// its price (the checks that come first).
pub proof fn lemma_trade_sale_type_mismatch(
    m: Map<ListingKey, Listing>,
    key: ListingKey,
    caller: AccountAddress,
    amount: u64,
    now: u64,
    sale_type: SaleType,
    transfers: Result<(), MarketplaceError>,
)
    requires
        m.contains_key(key),
        m[key].status == ListState::Listed,
        amount > m[key].price,
        sale_type != m[key].sale_type,
    ensures
        trade_result(m, key, caller, amount, now, sale_type, transfers) == Err::<
            (),
            MarketplaceError,
        >(MarketplaceError::NotMatchedSaleType),
{
}

/// A cancellation by the owner of a listing on sale, with a sale type that
/// differs from the listing's, is refused with `NotMatchedSaleType`.
pub proof fn lemma_cancel_sale_type_mismatch(
    m: Map<ListingKey, Listing>,
    key: ListingKey,
    sender: Address,
    sale_type: SaleType,
)
    requires
        m.contains_key(key),
        m[key].status == ListState::Listed,
        sent_by(sender, m[key].owner),
        sale_type != m[key].sale_type,
    ensures
        cancel_result(m, key, sender, sale_type) == Err::<(), MarketplaceError>(
            MarketplaceError::NotMatchedSaleType,
        ),
{
}

/// Settlement exists for auctions only: asked for with the fixed-price tag it
/// is always refused with `NotMatchedSaleType`, and so it is when the owner
/// asks with a tag that differs from the listing's sale type.
pub proof fn lemma_finalize_sale_type_mismatch(
    m: Map<ListingKey, Listing>,
    key: ListingKey,
    sender: Address,
    sale_type: SaleType,
    transfers: Result<(), MarketplaceError>,
)
    requires
        sale_type == SaleType::Fixed || {
            &&& m.contains_key(key)
            &&& sent_by(sender, m[key].owner)
            &&& sale_type != m[key].sale_type
        },
    ensures
        finalize_result(m, key, sender, sale_type, transfers) == Err::<(), MarketplaceError>(
            MarketplaceError::NotMatchedSaleType,
        ),
{
}

/// An accepted bid raises the auction's price strictly, to the bid itself,
/// and makes the bidder the highest bidder; the bidder it displaces, if any,
/// is refunded exactly the previous price.
pub proof fn lemma_bid_raises_price(
    m: Map<ListingKey, Listing>,
    key: ListingKey,
    caller: AccountAddress,
    amount: u64,
    now: u64,
    transfers: Result<(), MarketplaceError>,
)
    requires
        trade_result(m, key, caller, amount, now, SaleType::Auction, transfers) is Ok,
    ensures
        ({
            let after = m.insert(key, traded(m[key], caller, amount));
            &&& after[key].price > m[key].price
            &&& after[key].price == amount
            &&& after[key].highest_bidder == caller
            &&& after[key].status == ListState::Listed
            &&& after[key].sale_type == SaleType::Auction
        }),
        match trade_plan_of(m, key, caller, amount, now, SaleType::Auction) {
            Ok(TradePlan::Outbid { previous_bidder, refund }) => {
                &&& previous_bidder == m[key].highest_bidder
                &&& previous_bidder != no_bidder()
                &&& refund == m[key].price
            },
            Ok(TradePlan::FirstBid) => m[key].highest_bidder == no_bidder(),
            _ => false,
        },
{
}

/// The ledger after `bids` (bidder, amount, time) are applied in turn to the
/// record at `key`, each with its refund made.
pub open spec fn after_bids(
    m: Map<ListingKey, Listing>,
    key: ListingKey,
    bids: Seq<(AccountAddress, u64, u64)>,
) -> Map<ListingKey, Listing>
    decreases bids.len(),
{
    if bids.len() == 0 {
        m
    } else {
        let before = after_bids(m, key, bids.drop_last());
        before.insert(key, traded(before[key], bids.last().0, bids.last().1))
    }
}

/// Every bid of `bids` is accepted by the auction as the earlier ones left it.
pub open spec fn bids_accepted(
    m: Map<ListingKey, Listing>,
    key: ListingKey,
    bids: Seq<(AccountAddress, u64, u64)>,
) -> bool {
    forall|i: int|
        0 <= i < bids.len() ==> trade_result(
            #[trigger] after_bids(m, key, bids.take(i)),
            key,
            bids[i].0,
            bids[i].1,
            bids[i].2,
            SaleType::Auction,
            Ok(()),
        ) is Ok
}

/// Across a run of accepted bids the amounts strictly increase, and the
/// auction ends up held by the last bidder at the last amount.
pub proof fn lemma_bids_strictly_increase(
    m: Map<ListingKey, Listing>,
    key: ListingKey,
    bids: Seq<(AccountAddress, u64, u64)>,
)
    requires
        bids_accepted(m, key, bids),
    ensures
        forall|i: int, j: int| 0 <= i < j < bids.len() ==> bids[i].1 < bids[j].1,
        bids.len() > 0 ==> {
            &&& after_bids(m, key, bids)[key].price == bids.last().1
            &&& after_bids(m, key, bids)[key].highest_bidder == bids.last().0
            &&& after_bids(m, key, bids)[key].status == ListState::Listed
        },
    decreases bids.len(),
{
    if bids.len() > 0 {
        let n = bids.len() - 1;
        let init = bids.drop_last();
        assert forall|i: int| 0 <= i < init.len() implies trade_result(
            #[trigger] after_bids(m, key, init.take(i)),
            key,
            init[i].0,
            init[i].1,
            init[i].2,
            SaleType::Auction,
            Ok(()),
        ) is Ok by {
            assert(init.take(i) =~= bids.take(i));
            assert(after_bids(m, key, bids.take(i)) == after_bids(m, key, init.take(i)));
        }
        lemma_bids_strictly_increase(m, key, init);
        assert(bids.take(n) =~= init);
        assert(after_bids(m, key, bids.take(n)) == after_bids(m, key, init));
        lemma_bid_raises_price(after_bids(m, key, init), key, bids[n].0, bids[n].1, bids[n].2, Ok(()));
        if n > 0 {
            assert(init.last() == bids[n - 1]);
            assert forall|i: int, j: int| 0 <= i < j < bids.len() implies bids[i].1 < bids[j].1 by {
                assert(init[i] == bids[i]);
                if j < n {
                    assert(init[j] == bids[j]);
                }
            }
        }
    }
}

} // verus!
