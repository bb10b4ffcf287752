use vstd::prelude::*;

use crate::types::{
    listed, listing_ok, no_bidder, unlisted, AccountAddress, Address, Cis2ClientError, ListState,
    Listing, ListingKey, MarketplaceError, SaleType,
};

verus! {

/// The marketplace ledger: one record per listing key.
///
/// Records are never removed; settlement and cancellation reset them to the
/// neutral unlisted record.
pub struct Marketplace {
    entries: Vec<(ListingKey, Listing)>,
    records: Ghost<Map<ListingKey, Listing>>,
}

impl View for Marketplace {
    type V = Map<ListingKey, Listing>;

    closed spec fn view(&self) -> Map<ListingKey, Listing> {
        self.records@
    }
}

/// What a gateway answer means for a listing request: a failed call is passed
/// on, `false` is refused with `refusal`.
pub open spec fn gateway_check(answer: Result<bool, Cis2ClientError>, refusal: MarketplaceError) -> Result<(), MarketplaceError> {
    match answer {
        Err(e) => Err(MarketplaceError::Cis2ClientError(e)),
        Ok(false) => Err(refusal),
        Ok(true) => Ok(()),
    }
}

/// The outcome of a listing request, given the token contract's answers to
/// whether it supports CIS-2, whether the caller made the marketplace its
/// operator, and whether the caller holds the token; the first failure wins.
pub open spec fn list_result(
    supports: Result<bool, Cis2ClientError>,
    operator: Result<bool, Cis2ClientError>,
    balance: Result<bool, Cis2ClientError>,
) -> Result<(), MarketplaceError> {
    if gateway_check(supports, MarketplaceError::CollectionNotCis2) is Err {
        gateway_check(supports, MarketplaceError::CollectionNotCis2)
    } else if gateway_check(operator, MarketplaceError::NotOperator) is Err {
        gateway_check(operator, MarketplaceError::NotOperator)
    } else {
        gateway_check(balance, MarketplaceError::NoBalance)
    }
}

/// The outbound transfers that an accepted trade needs, in order.
#[derive(Clone, Copy, Debug)]
pub enum TradePlan {
    /// Move the token from `seller` to the buyer, then pay `payment` to `seller`.
    Purchase { seller: AccountAddress, payment: u64 },
    /// The first bid of an auction: nothing leaves escrow.
    FirstBid,
    /// Refund `refund` to `previous_bidder` before the new bid is held.
    Outbid { previous_bidder: AccountAddress, refund: u64 },
}

/// The decision on a trade of `amount` by `caller` at time `now`, before any
/// transfer is made.
pub open spec fn trade_plan_of(
    m: Map<ListingKey, Listing>,
    key: ListingKey,
    caller: AccountAddress,
    amount: u64,
    now: u64,
    sale_type: SaleType,
) -> Result<TradePlan, MarketplaceError> {
    if !m.contains_key(key) || m[key].status != ListState::Listed {
        Err(MarketplaceError::TokenNotListed)
    } else if amount <= m[key].price {
        Err(MarketplaceError::NotEnoughBalance)
    } else if sale_type != m[key].sale_type {
        Err(MarketplaceError::NotMatchedSaleType)
    } else if sale_type == SaleType::Fixed {
        Ok(TradePlan::Purchase { seller: m[key].owner, payment: amount })
    } else if now > m[key].expiry {
        Err(MarketplaceError::ExpiredAlready)
    } else if caller == m[key].owner {
        Err(MarketplaceError::CanNotBidYourSelf)
    } else if m[key].highest_bidder == no_bidder() {
        Ok(TradePlan::FirstBid)
    } else {
        Ok(TradePlan::Outbid { previous_bidder: m[key].highest_bidder, refund: m[key].price })
    }
}

/// The outcome of a trade whose planned transfers gave `transfers`.
pub open spec fn trade_result(
    m: Map<ListingKey, Listing>,
    key: ListingKey,
    caller: AccountAddress,
    amount: u64,
    now: u64,
    sale_type: SaleType,
    transfers: Result<(), MarketplaceError>,
) -> Result<(), MarketplaceError> {
    match trade_plan_of(m, key, caller, amount, now, sale_type) {
        Err(e) => Err(e),
        Ok(_) => transfers,
    }
}

/// The record after an accepted trade: a purchase hands the record to the
/// buyer, unlisted; a bid makes the caller the highest bidder at `amount`.
pub open spec fn traded(l: Listing, caller: AccountAddress, amount: u64) -> Listing {
    if l.sale_type == SaleType::Fixed {
        unlisted(caller)
    } else {
        Listing { highest_bidder: caller, price: amount, ..l }
    }
}

/// Whether `sender` is the account `owner`.
pub open spec fn sent_by(sender: Address, owner: AccountAddress) -> bool {
    sender matches Address::Account(a) && a == owner
}

/// The outcome of a cancellation.
pub open spec fn cancel_result(
    m: Map<ListingKey, Listing>,
    key: ListingKey,
    sender: Address,
    sale_type: SaleType,
) -> Result<(), MarketplaceError> {
    if !m.contains_key(key) {
        Err(MarketplaceError::TokenNotListed)
    } else if m[key].status != ListState::Listed {
        Err(MarketplaceError::CanceledAlready)
    } else if !sent_by(sender, m[key].owner) {
        Err(MarketplaceError::Unauthorized)
    } else if sale_type != m[key].sale_type {
        Err(MarketplaceError::NotMatchedSaleType)
    } else {
        Ok(())
    }
}

/// The transfers that settle an auction: `payment` to `seller`, then the
/// token from `seller` to `winner`.
#[derive(Clone, Copy, Debug)]
pub struct Settlement {
    pub seller: AccountAddress,
    pub winner: AccountAddress,
    pub payment: u64,
}

/// The decision on settling an auction, before any transfer is made.
pub open spec fn settlement_of(
    m: Map<ListingKey, Listing>,
    key: ListingKey,
    sender: Address,
    sale_type: SaleType,
) -> Result<Settlement, MarketplaceError> {
    if sale_type == SaleType::Fixed {
        Err(MarketplaceError::NotMatchedSaleType)
    } else if !m.contains_key(key) {
        Err(MarketplaceError::TokenNotListed)
    } else if !sent_by(sender, m[key].owner) {
        Err(MarketplaceError::Unauthorized)
    } else if m[key].sale_type != SaleType::Auction {
        Err(MarketplaceError::NotMatchedSaleType)
    } else if m[key].highest_bidder == no_bidder() {
        Err(MarketplaceError::NotBidded)
    } else {
        Ok(Settlement { seller: m[key].owner, winner: m[key].highest_bidder, payment: m[key].price })
    }
}

/// The outcome of a settlement whose transfers gave `transfers`.
pub open spec fn finalize_result(
    m: Map<ListingKey, Listing>,
    key: ListingKey,
    sender: Address,
    sale_type: SaleType,
    transfers: Result<(), MarketplaceError>,
) -> Result<(), MarketplaceError> {
    match settlement_of(m, key, sender, sale_type) {
        Err(e) => Err(e),
        Ok(_) => transfers,
    }
}

fn gateway_ok(answer: Result<bool, Cis2ClientError>, refusal: MarketplaceError) -> (r: Result<(), MarketplaceError>)
    ensures
        r == gateway_check(answer, refusal),
{
    match answer {
        Err(e) => Err(MarketplaceError::Cis2ClientError(e)),
        Ok(false) => Err(refusal),
        Ok(true) => Ok(()),
    }
}

fn is_sender(sender: &Address, owner: &AccountAddress) -> (r: bool)
    ensures
        r == sent_by(*sender, *owner),
{
    match sender {
        Address::Account(a) => a.same_as(owner),
        Address::Contract(_) => false,
    }
}

impl Marketplace {
    /// The entries hold each key once and agree with the view, and every
    /// record satisfies `listing_ok`.
    pub closed spec fn wf(&self) -> bool {
        &&& forall|i: int, j: int|
            0 <= i < j < self.entries@.len() ==> self.entries@[i].0 != self.entries@[j].0
        &&& forall|i: int|
            0 <= i < self.entries@.len() ==> {
                &&& self.records@.contains_key(#[trigger] self.entries@[i].0)
                &&& self.records@[self.entries@[i].0] == self.entries@[i].1
            }
        &&& forall|k: ListingKey| #[trigger]
            self.records@.contains_key(k) ==> exists|i: int|
                0 <= i < self.entries@.len() && #[trigger] self.entries@[i].0 == k
        &&& forall|k: ListingKey| #[trigger] self.records@.contains_key(k) ==> listing_ok(self.records@[k])
    }

    /// An empty ledger.
    pub fn new() -> (r: Marketplace)
        ensures
            r.wf(),
            r@ == Map::<ListingKey, Listing>::empty(),
    {
        Marketplace { entries: Vec::new(), records: Ghost(Map::empty()) }
    }

    fn find(&self, key: &ListingKey) -> (r: Option<usize>)
        requires
            self.wf(),
        ensures
            match r {
                Some(i) => i < self.entries@.len() && self.entries@[i as int].0 == *key,
                None => !self@.contains_key(*key),
            },
    {
        let mut i: usize = 0;
        while i < self.entries.len()
            invariant
                self.wf(),
                0 <= i <= self.entries@.len(),
                forall|j: int| 0 <= j < i ==> self.entries@[j].0 != *key,
            decreases self.entries@.len() - i,
        {
            if self.entries[i].0 == *key {
                return Some(i);
            }
            i = i + 1;
        }
        None
    }

    /// The record stored under `key`, if any.
    pub fn get(&self, key: &ListingKey) -> (r: Option<Listing>)
        requires
            self.wf(),
        ensures
            r == (if self@.contains_key(*key) { Some(self@[*key]) } else { None::<Listing> }),
    {
        match self.find(key) {
            Some(i) => Some(self.entries[i].1),
            None => None,
        }
    }

    fn put(&mut self, key: ListingKey, l: Listing)
        requires
            old(self).wf(),
            listing_ok(l),
        ensures
            final(self).wf(),
            final(self)@ == old(self)@.insert(key, l),
    {
        let ghost old_records = self.records@;
        let ghost old_entries = self.entries@;
        let ghost at: int;
        match self.find(&key) {
            Some(i) => {
                self.entries.set(i, (key, l));
                proof {
                    at = i as int;
                }
            },
            None => {
                self.entries.push((key, l));
                proof {
                    at = self.entries@.len() - 1;
                }
            },
        }
        proof {
            self.records@ = old_records.insert(key, l);
            assert(self.entries@[at].0 == key);
            assert forall|k: ListingKey| #[trigger] self.records@.contains_key(k) implies exists|i: int|
                0 <= i < self.entries@.len() && #[trigger] self.entries@[i].0 == k by {
                if k != key {
                    assert(old_records.contains_key(k));
                    let w = choose|i: int| 0 <= i < old_entries.len() && #[trigger] old_entries[i].0 == k;
                    assert(self.entries@[w].0 == k);
                }
            }
        }
    }
    /// Lists the token `key` for sale by `caller`, given the token contract's
    /// answers on CIS-2 support, operator approval and balance. On success the
    /// record is replaced by a fresh listing; no funds or tokens move.
    pub fn list(
        &mut self,
        key: ListingKey,
        caller: AccountAddress,
        price: u64,
        sale_type: SaleType,
        expiry: u64,
        supports: Result<bool, Cis2ClientError>,
        operator: Result<bool, Cis2ClientError>,
        balance: Result<bool, Cis2ClientError>,
    ) -> (r: Result<(), MarketplaceError>)
        requires
            old(self).wf(),
        ensures
            final(self).wf(),
            r == list_result(supports, operator, balance),
            r is Ok ==> final(self)@ == old(self)@.insert(key, listed(caller, sale_type, price, expiry)),
            r is Err ==> *final(self) == *old(self),
    {
        if let Err(e) = gateway_ok(supports, MarketplaceError::CollectionNotCis2) {
            return Err(e);
        }
        if let Err(e) = gateway_ok(operator, MarketplaceError::NotOperator) {
            return Err(e);
        }
        if let Err(e) = gateway_ok(balance, MarketplaceError::NoBalance) {
            return Err(e);
        }
        let record = Listing::new_listed(caller, sale_type, price, expiry);
        self.put(key, record);
        Ok(())
    }
    /// Decides a trade of `amount` by `caller` at time `now` (milliseconds):
    /// which transfers it needs, or why it is refused. Nothing changes.
    pub fn trade_plan(
        &self,
        key: &ListingKey,
        caller: &AccountAddress,
        amount: u64,
        now: u64,
        sale_type: SaleType,
    ) -> (r: Result<TradePlan, MarketplaceError>)
        requires
            self.wf(),
        ensures
            r == trade_plan_of(self@, *key, *caller, amount, now, sale_type),
    {
        let l = match self.get(key) {
            Some(l) => l,
            None => {
                return Err(MarketplaceError::TokenNotListed);
            },
        };
        if l.status != ListState::Listed {
            return Err(MarketplaceError::TokenNotListed);
        }
        if amount <= l.price {
            return Err(MarketplaceError::NotEnoughBalance);
        }
        if sale_type != l.sale_type {
            return Err(MarketplaceError::NotMatchedSaleType);
        }
        match sale_type {
            SaleType::Fixed => Ok(TradePlan::Purchase { seller: l.owner, payment: amount }),
            SaleType::Auction => {
                if now > l.expiry {
                    Err(MarketplaceError::ExpiredAlready)
                } else if caller.same_as(&l.owner) {
                    Err(MarketplaceError::CanNotBidYourSelf)
                } else if l.highest_bidder.is_none() {
                    Ok(TradePlan::FirstBid)
                } else {
                    Ok(TradePlan::Outbid { previous_bidder: l.highest_bidder, refund: l.price })
                }
            },
        }
    }

    /// Commits a trade, given what the transfers of its plan gave. A refused
    /// trade, or one whose transfers failed, changes nothing.
    pub fn trade(
        &mut self,
        key: ListingKey,
        caller: AccountAddress,
        amount: u64,
        now: u64,
        sale_type: SaleType,
        transfers: Result<(), MarketplaceError>,
    ) -> (r: Result<(), MarketplaceError>)
        requires
            old(self).wf(),
        ensures
            final(self).wf(),
            r == trade_result(old(self)@, key, caller, amount, now, sale_type, transfers),
            r is Ok ==> final(self)@ == old(self)@.insert(key, traded(old(self)@[key], caller, amount)),
            r is Err ==> *final(self) == *old(self),
    {
        if let Err(e) = self.trade_plan(&key, &caller, amount, now, sale_type) {
            return Err(e);
        }
        if transfers.is_err() {
            return transfers;
        }
        let l = match self.get(&key) {
            Some(l) => l,
            None => {
                return Err(MarketplaceError::TokenNotListed);
            },
        };
        let record = match l.sale_type {
            SaleType::Fixed => Listing::new_unlisted(caller),
            SaleType::Auction => Listing { highest_bidder: caller, price: amount, ..l },
        };
        self.put(key, record);
        transfers
    }

    /// Withdraws a listing at its owner's request; the record is reset to the
    /// neutral unlisted record. An escrowed bid is not refunded here.
    pub fn cancel(&mut self, key: ListingKey, sender: Address, sale_type: SaleType) -> (r: Result<(), MarketplaceError>)
        requires
            old(self).wf(),
        ensures
            final(self).wf(),
            r == cancel_result(old(self)@, key, sender, sale_type),
            r is Ok ==> final(self)@ == old(self)@.insert(key, unlisted(old(self)@[key].owner)),
            r is Err ==> *final(self) == *old(self),
    {
        let l = match self.get(&key) {
            Some(l) => l,
            None => {
                return Err(MarketplaceError::TokenNotListed);
            },
        };
        if l.status != ListState::Listed {
            return Err(MarketplaceError::CanceledAlready);
        }
        if !is_sender(&sender, &l.owner) {
            return Err(MarketplaceError::Unauthorized);
        }
        if sale_type != l.sale_type {
            return Err(MarketplaceError::NotMatchedSaleType);
        }
        self.put(key, Listing::new_unlisted(l.owner));
        Ok(())
    }

    /// Decides the settlement of an auction: the payment to the seller and
    /// the token transfer to the winner, or why it is refused. Expiry does
    /// not matter here. Nothing changes.
    pub fn settlement(&self, key: &ListingKey, sender: &Address, sale_type: SaleType) -> (r: Result<
        Settlement,
        MarketplaceError,
    >)
        requires
            self.wf(),
        ensures
            r == settlement_of(self@, *key, *sender, sale_type),
    {
        if sale_type == SaleType::Fixed {
            return Err(MarketplaceError::NotMatchedSaleType);
        }
        let l = match self.get(key) {
            Some(l) => l,
            None => {
                return Err(MarketplaceError::TokenNotListed);
            },
        };
        if !is_sender(sender, &l.owner) {
            return Err(MarketplaceError::Unauthorized);
        }
        if l.sale_type != SaleType::Auction {
            return Err(MarketplaceError::NotMatchedSaleType);
        }
        if l.highest_bidder.is_none() {
            return Err(MarketplaceError::NotBidded);
        }
        Ok(Settlement { seller: l.owner, winner: l.highest_bidder, payment: l.price })
    }

    /// Commits the settlement of an auction, given what its transfers gave;
    /// the record is reset to the neutral unlisted record.
    pub fn finalize(
        &mut self,
        key: ListingKey,
        sender: Address,
        sale_type: SaleType,
        transfers: Result<(), MarketplaceError>,
    ) -> (r: Result<(), MarketplaceError>)
        requires
            old(self).wf(),
        ensures
            final(self).wf(),
            r == finalize_result(old(self)@, key, sender, sale_type, transfers),
            r is Ok ==> final(self)@ == old(self)@.insert(key, unlisted(old(self)@[key].owner)),
            r is Err ==> *final(self) == *old(self),
    {
        let s = match self.settlement(&key, &sender, sale_type) {
            Ok(s) => s,
            Err(e) => {
                return Err(e);
            },
        };
        if transfers.is_err() {
            return transfers;
        }
        self.put(key, Listing::new_unlisted(s.seller));
        transfers
    }
    /// No dangling escrow: in a well-formed ledger every unlisted record holds
    /// no bidder, no price and no expiry.
    pub proof fn lemma_unlisted_holds_no_escrow(&self, key: ListingKey)
        requires
            self.wf(),
            self@.contains_key(key),
            self@[key].status == ListState::Unlisted,
        ensures
            self@[key].highest_bidder == no_bidder(),
            self@[key].price == 0,
            self@[key].expiry == 0,
    {
        assert(listing_ok(self@[key]));
    }
    /// Every record with its key, each key once.
    pub fn records(&self) -> (r: Vec<(ListingKey, Listing)>)
        requires
            self.wf(),
        ensures
            records_unique(r@),
            records_map(r@) == self@,
    {
        let mut r: Vec<(ListingKey, Listing)> = Vec::new();
        let mut i: usize = 0;
        while i < self.entries.len()
            invariant
                0 <= i <= self.entries@.len(),
                r@ == self.entries@.subrange(0, i as int),
            decreases self.entries@.len() - i,
        {
            r.push(self.entries[i]);
            i = i + 1;
            proof {
                assert(r@ =~= self.entries@.subrange(0, i as int));
            }
        }
        proof {
            assert(r@ =~= self.entries@);
            assert forall|k: ListingKey| #[trigger] records_map(r@).contains_key(k) <==> self@.contains_key(k) by {
                lemma_records_map_keys(r@, k);
                if self@.contains_key(k) {
                    let j = choose|j: int| 0 <= j < self.entries@.len() && #[trigger] self.entries@[j].0 == k;
                }
            }
            assert forall|k: ListingKey| #[trigger] records_map(r@).contains_key(k) implies records_map(r@)[k] == self@[k] by {
                lemma_records_map_keys(r@, k);
                let j = choose|j: int| 0 <= j < r@.len() && r@[j].0 == k;
                lemma_records_map_value(r@, j);
            }
            assert(records_map(r@) =~= self@);
        }
        r
    }

    /// Rebuilds a ledger from records taken out of one by `records`: `None`
    /// where a key repeats or a record breaks `listing_ok`.
    pub fn restore(records: &Vec<(ListingKey, Listing)>) -> (r: Option<Marketplace>)
        ensures
            r is Some <==> records_unique(records@) && forall|i: int|
                0 <= i < records@.len() ==> listing_ok(#[trigger] records@[i].1),
            r matches Some(m) ==> m.wf() && m@ == records_map(records@),
    {
        let mut m = Marketplace::new();
        let mut i: usize = 0;
        while i < records.len()
            invariant
                0 <= i <= records@.len(),
                m.wf(),
                records_unique(records@.subrange(0, i as int)),
                forall|j: int| 0 <= j < i ==> listing_ok(#[trigger] records@[j].1),
                m@ == records_map(records@.subrange(0, i as int)),
            decreases records@.len() - i,
        {
            let (key, l) = records[i];
            if !l.is_consistent() {
                return None;
            }
            if m.find(&key).is_some() {
                proof {
                    assert(m@.contains_key(key));
                    lemma_records_map_keys(records@.subrange(0, i as int), key);
                    let j = choose|j: int| 0 <= j < i && records@.subrange(0, i as int)[j].0 == key;
                    assert(records@[j].0 == records@[i as int].0);
                }
                return None;
            }
            m.put(key, l);
            proof {
                let prefix = records@.subrange(0, i as int);
                let next = records@.subrange(0, i + 1);
                assert(next =~= prefix.push((key, l)));
                assert(next.drop_last() =~= prefix);
                lemma_records_map_keys(prefix, key);
                assert forall|a: int, b: int| 0 <= a < b < next.len() implies next[a].0 != next[b].0 by {
                    if b == i {
                        assert(prefix[a] == next[a]);
                    } else {
                        assert(prefix[a] == next[a] && prefix[b] == next[b]);
                    }
                }
            }
            i = i + 1;
        }
        proof {
            assert(records@.subrange(0, records@.len() as int) =~= records@);
        }
        Some(m)
    }
}

/// No key occurs twice among `records`.
pub open spec fn records_unique(records: Seq<(ListingKey, Listing)>) -> bool {
    forall|i: int, j: int| 0 <= i < j < records.len() ==> records[i].0 != records[j].0
}

/// The map that `records` describe; where a key repeats, its last record counts.
pub open spec fn records_map(records: Seq<(ListingKey, Listing)>) -> Map<ListingKey, Listing>
    decreases records.len(),
{
    if records.len() == 0 {
        Map::empty()
    } else {
        records_map(records.drop_last()).insert(records.last().0, records.last().1)
    }
}

proof fn lemma_records_map_value(records: Seq<(ListingKey, Listing)>, i: int)
    requires
        records_unique(records),
        0 <= i < records.len(),
    ensures
        records_map(records).contains_key(records[i].0),
        records_map(records)[records[i].0] == records[i].1,
    decreases records.len(),
{
    if i < records.len() - 1 {
        let init = records.drop_last();
        lemma_records_map_value(init, i);
    }
}

proof fn lemma_records_map_keys(records: Seq<(ListingKey, Listing)>, key: ListingKey)
    ensures
        records_map(records).contains_key(key) <==> exists|j: int|
            0 <= j < records.len() && records[j].0 == key,
    decreases records.len(),
{
    if records.len() > 0 {
        let init = records.drop_last();
        lemma_records_map_keys(init, key);
        if exists|j: int| 0 <= j < init.len() && init[j].0 == key {
            let j = choose|j: int| 0 <= j < init.len() && init[j].0 == key;
            assert(records[j] == init[j]);
        }
        if exists|j: int| 0 <= j < records.len() && records[j].0 == key {
            let j = choose|j: int| 0 <= j < records.len() && records[j].0 == key;
            if j < init.len() {
                assert(records[j] == init[j]);
            }
        }
    }
}

} // verus!
