use crate::state::pubkey::Pubkey;
use crate::utils::error::ErrorCode;
use vstd::prelude::*;

verus! {

/// The royalty rate a marketplace is created with unless told otherwise.
pub const DEFAULT_ROYALTY_PERCENTAGE: u8 = 5;

/// The largest royalty rate: the whole resale price.
pub const MAX_ROYALTY_PERCENTAGE: u8 = 100;

/// The fixed first seed of the marketplace's signing authority: the ASCII
/// bytes of `marketplace`.
pub const MARKETPLACE_SEED: [u8; 11] = [109, 97, 114, 107, 101, 116, 112, 108, 97, 99, 101];

/// The marketplace-wide configuration record.
#[derive(Clone, Copy, Debug, PartialEq, Eq)]
pub struct Marketplace {
    /// The authority that can manage the marketplace.
    pub authority: Pubkey,
    /// The total number of services listed in the marketplace.
    pub total_services: u64,
    /// The percentage of a resale price that goes to the marketplace.
    pub royalty_percentage: u8,
    pub bump_array: [u8; 1],
    pub bump: u8,
}

/// How a resale price divides between the marketplace and the seller.
#[derive(Clone, Copy, Debug, PartialEq, Eq, Structural)]
pub struct RoyaltySplit {
    /// The marketplace's share.
    pub royalty: u64,
    /// What is left for the seller.
    pub seller_amount: u64,
}

/// The marketplace's share of `new_price` at `royalty_percentage` percent,
/// rounded down.
pub open spec fn royalty_of(new_price: u64, royalty_percentage: u8) -> nat {
    (new_price as nat * royalty_percentage as nat) / 100
}

/// The division of `new_price` at `royalty_percentage` percent, or
/// `ArithmeticUnderflow` where the royalty would exceed the price.
pub open spec fn split_of(new_price: u64, royalty_percentage: u8) -> Result<
    RoyaltySplit,
    ErrorCode,
> {
    let royalty = royalty_of(new_price, royalty_percentage);
    if royalty > new_price {
        Err(ErrorCode::ArithmeticUnderflow)
    } else {
        Ok(
            RoyaltySplit {
                royalty: royalty as u64,
                seller_amount: (new_price - royalty) as u64,
            },
        )
    }
}

/// A royalty of at most a hundred percent never exceeds the price.
pub proof fn lemma_royalty_bounded(new_price: u64, royalty_percentage: u8)
    requires
        royalty_percentage <= MAX_ROYALTY_PERCENTAGE,
    ensures
        royalty_of(new_price, royalty_percentage) <= new_price,
{
    let p = new_price as nat;
    let r = royalty_percentage as nat;
    assert(p * r <= p * 100) by (nonlinear_arith)
        requires
            r <= 100,
    ;
}

/// Divides `new_price` at `royalty_percentage` percent. The product is taken
/// in 128 bits, so it cannot overflow.
pub fn royalty_split(new_price: u64, royalty_percentage: u8) -> (split: Result<
    RoyaltySplit,
    ErrorCode,
>)
    ensures
        split == split_of(new_price, royalty_percentage),
        royalty_percentage <= MAX_ROYALTY_PERCENTAGE ==> split is Ok,
        split matches Ok(s) ==> s.royalty + s.seller_amount == new_price,
{
    assert(new_price as nat * royalty_percentage as nat <= 0xffff_ffff_ffff_ffff * 0xff)
        by (nonlinear_arith)
        requires
            new_price <= 0xffff_ffff_ffff_ffff,
            royalty_percentage <= 0xff,
    ;
    let royalty: u128 = (new_price as u128) * (royalty_percentage as u128) / 100;
    proof {
        if royalty_percentage <= MAX_ROYALTY_PERCENTAGE {
            lemma_royalty_bounded(new_price, royalty_percentage);
        }
    }
    if royalty > new_price as u128 {
        Err(ErrorCode::ArithmeticUnderflow)
    } else {
        let royalty: u64 = royalty as u64;
        Ok(RoyaltySplit { royalty, seller_amount: new_price - royalty })
    }
}

impl Marketplace {
    /// The registry's invariant: the royalty rate is a percentage.
    pub open spec fn wf(&self) -> bool {
        self.royalty_percentage <= MAX_ROYALTY_PERCENTAGE
    }

    /// The record a marketplace starts from: no service listed yet, and
    /// `bump` left at zero.
    pub open spec fn initial(authority: Pubkey, royalty_percentage: u8, bump: u8) -> Marketplace {
        Marketplace {
            authority,
            total_services: 0,
            royalty_percentage,
            bump_array: [bump],
            bump: 0,
        }
    }

    /// Creates the record, or refuses a rate above a hundred percent.
    pub fn initialize(authority: Pubkey, royalty_percentage: u8, bump: u8) -> (created: Result<
        Marketplace,
        ErrorCode,
    >)
        ensures
            royalty_percentage <= MAX_ROYALTY_PERCENTAGE ==> created == Ok::<Marketplace, ErrorCode>(
                Marketplace::initial(authority, royalty_percentage, bump),
            ),
            royalty_percentage > MAX_ROYALTY_PERCENTAGE ==> created == Err::<Marketplace, ErrorCode>(
                ErrorCode::InvalidRoyalty,
            ),
            created matches Ok(m) ==> m.wf(),
    {
        if royalty_percentage > MAX_ROYALTY_PERCENTAGE {
            return Err(ErrorCode::InvalidRoyalty);
        }
        Ok(
            Marketplace {
                authority,
                total_services: 0,
                royalty_percentage,
                bump_array: [bump],
                bump: 0,
            },
        )
    }

    /// The record after one more service was listed.
    pub open spec fn counted(self) -> Marketplace {
        Marketplace { total_services: (self.total_services + 1) as u64, ..self }
    }

    /// Counts one more listed service. At the largest count it refuses and
    /// changes nothing.
    pub fn increment_service_count(&mut self) -> (done: Result<(), ErrorCode>)
        ensures
            old(self).total_services < u64::MAX ==> done == Ok::<(), ErrorCode>(()) && *final(self)
                == old(self).counted() && final(self).total_services == old(self).total_services
                + 1,
            old(self).total_services == u64::MAX ==> done == Err::<(), ErrorCode>(
                ErrorCode::ArithmeticOverflow,
            ) && *final(self) == *old(self),
    {
        if self.total_services == u64::MAX {
            return Err(ErrorCode::ArithmeticOverflow);
        }
        self.total_services = self.total_services + 1;
        Ok(())
    }

    /// Divides a resale price at this marketplace's rate.
    pub fn royalty_split(&self, new_price: u64) -> (split: Result<RoyaltySplit, ErrorCode>)
        ensures
            split == split_of(new_price, self.royalty_percentage),
            self.wf() ==> split is Ok,
            split matches Ok(s) ==> s.royalty + s.seller_amount == new_price,
    {
        royalty_split(new_price, self.royalty_percentage)
    }

    /// Seeds for the marketplace account.
    pub fn signing_seeds(&self) -> (seeds: [&[u8]; 2])
        ensures
            seeds[0]@ == MARKETPLACE_SEED@,
            seeds[1]@ == self.bump_array@,
    {
        [MARKETPLACE_SEED.as_slice(), self.bump_array.as_slice()]
    }
}

} // verus!
