use vstd::prelude::*;

verus! {

/// The 32 bytes of an account on the host ledger.
#[derive(Clone, Copy, Debug)]
pub struct AccountAddress(pub [u8; 32]);

/// A smart-contract instance on the host ledger.
#[derive(Clone, Copy, Debug, PartialEq, Eq, Structural)]
pub struct ContractAddress {
    pub index: u64,
    pub subindex: u64,
}

/// Who sent a call: an account or another contract.
#[derive(Clone, Copy, Debug)]
pub enum Address {
    Account(AccountAddress),
    Contract(ContractAddress),
}

/// The reserved account that stands for "no bidder": all bytes zero.
pub open spec fn no_bidder() -> AccountAddress {
    AccountAddress(vstd::array::spec_array_fill_for_copy_type::<u8, 32>(0u8))
}

impl AccountAddress {
    /// The "no bidder" account.
    pub fn none() -> (r: AccountAddress)
        ensures
            r == no_bidder(),
    {
        AccountAddress([0u8; 32])
    }

    /// Byte-wise comparison of two accounts.
    pub fn same_as(&self, other: &AccountAddress) -> (r: bool)
        ensures
            r == (*self == *other),
    {
        broadcast use vstd::array::group_array_axioms;
        let mut i: usize = 0;
        while i < 32
            invariant
                0 <= i <= 32,
                forall|j: int| 0 <= j < i ==> self.0[j] == other.0[j],
            decreases 32 - i,
        {
            if self.0[i] != other.0[i] {
                return false;
            }
            i = i + 1;
        }
        assert(self.0 =~= other.0);
        true
    }

    /// Whether this is the "no bidder" account.
    pub fn is_none(&self) -> (r: bool)
        ensures
            r == (*self == no_bidder()),
    {
        let z = AccountAddress::none();
        self.same_as(&z)
    }
}

/// Identifies one listable token: its id within a token contract, and that contract.
#[derive(Clone, Copy, Debug, PartialEq, Eq, Structural)]
pub struct ListingKey {
    pub token_id: u32,
    pub contract: ContractAddress,
}

/// How a listed token is sold.
#[derive(Clone, Copy, Debug, PartialEq, Eq, Structural)]
pub enum SaleType {
    Fixed,
    Auction,
}

impl SaleType {
    /// Decodes the sale-type flag of a call: 0 is a fixed-price sale, any other value an auction.
    pub fn from_tag(tag: u8) -> (r: SaleType)
        ensures
            r == (if tag == 0 { SaleType::Fixed } else { SaleType::Auction }),
    {
        if tag == 0 {
            SaleType::Fixed
        } else {
            SaleType::Auction
        }
    }
}

/// Whether a record is on sale.
#[derive(Clone, Copy, Debug, PartialEq, Eq, Structural)]
pub enum ListState {
    Unlisted,
    Listed,
}

/// One listing record.
///
/// `price` is the ask of a fixed-price sale, or the current highest bid of an
/// auction (0 until the first bid). `expiry` is the end of an auction in
/// milliseconds, 0 for a fixed-price sale. `highest_bidder` is `no_bidder()`
/// while no bid is held.
#[derive(Clone, Copy, Debug)]
pub struct Listing {
    pub sale_type: SaleType,
    pub status: ListState,
    pub owner: AccountAddress,
    pub expiry: u64,
    pub highest_bidder: AccountAddress,
    pub price: u64,
}

/// What a record must satisfy at every moment: an unlisted record carries no
/// claim, and a fixed-price record holds no bid.
pub open spec fn listing_ok(l: Listing) -> bool {
    &&& l.status == ListState::Unlisted ==> {
        &&& l.highest_bidder == no_bidder()
        &&& l.price == 0
        &&& l.expiry == 0
    }
    &&& l.sale_type == SaleType::Fixed ==> {
        &&& l.highest_bidder == no_bidder()
        &&& l.expiry == 0
    }
}

/// The record of a fresh listing.
pub open spec fn listed(owner: AccountAddress, sale_type: SaleType, price: u64, expiry: u64) -> Listing {
    Listing {
        sale_type,
        status: ListState::Listed,
        owner,
        expiry: if sale_type == SaleType::Auction { expiry } else { 0 },
        highest_bidder: no_bidder(),
        price,
    }
}

/// The neutral record that settlement and cancellation leave behind.
pub open spec fn unlisted(owner: AccountAddress) -> Listing {
    Listing {
        sale_type: SaleType::Fixed,
        status: ListState::Unlisted,
        owner,
        expiry: 0,
        highest_bidder: no_bidder(),
        price: 0,
    }
}

impl Listing {
    pub fn new_listed(owner: AccountAddress, sale_type: SaleType, price: u64, expiry: u64) -> (r: Listing)
        ensures
            r == listed(owner, sale_type, price, expiry),
    {
        let expiry = match sale_type {
            SaleType::Auction => expiry,
            SaleType::Fixed => 0,
        };
        Listing {
            sale_type,
            status: ListState::Listed,
            owner,
            expiry,
            highest_bidder: AccountAddress::none(),
            price,
        }
    }

    /// Whether this record satisfies `listing_ok`.
    pub fn is_consistent(&self) -> (r: bool)
        ensures
            r == listing_ok(*self),
    {
        let unlisted_ok = match self.status {
            ListState::Unlisted => self.highest_bidder.is_none() && self.price == 0 && self.expiry == 0,
            ListState::Listed => true,
        };
        let fixed_ok = match self.sale_type {
            SaleType::Fixed => self.highest_bidder.is_none() && self.expiry == 0,
            SaleType::Auction => true,
        };
        unlisted_ok && fixed_ok
    }

    pub fn new_unlisted(owner: AccountAddress) -> (r: Listing)
        ensures
            r == unlisted(owner),
    {
        Listing {
            sale_type: SaleType::Fixed,
            status: ListState::Unlisted,
            owner,
            expiry: 0,
            highest_bidder: AccountAddress::none(),
            price: 0,
        }
    }
}

/// Failures of a call into a token contract.
#[derive(Clone, Copy, Debug, PartialEq, Eq, Structural)]
pub enum Cis2ClientError {
    /// The call itself failed, or its response held no result.
    InvokeContractError,
    /// The parameter could not be built.
    ParseParams,
    /// The response could not be decoded.
    ParseResult,
}

/// Why a marketplace operation was refused.
#[derive(Clone, Copy, Debug, PartialEq, Eq, Structural)]
pub enum MarketplaceError {
    ParseParams,
    CalledByAContract,
    TokenNotListed,
    Cis2ClientError(Cis2ClientError),
    CollectionNotCis2,
    InvalidAmountPaid,
    InvokeTransferError,
    NoBalance,
    NotOperator,
    NotMatchedSaleType,
    NotEnoughBalance,
    ExpiredAlready,
    CanNotBidYourSelf,
    CanceledAlready,
    Unauthorized,
    NotBidded,
}

} // verus!
