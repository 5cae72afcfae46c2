use crate::state::escrow::{after_lock, EscrowVault};
use crate::state::listings::Listings;
use crate::state::market::{MarketState, MarketView};
use crate::state::marketplace::Marketplace;
use crate::state::pubkey::Pubkey;
use crate::state::service::{Service, ServiceView};
use crate::utils::error::ErrorCode;
use vstd::prelude::*;

verus! {

/// What listing a service takes, besides the terms of the offer.
#[derive(Clone, Copy, Debug, PartialEq, Eq)]
pub struct ListService {
    /// The vendor, who holds the asset.
    pub vendor: Pubkey,
    /// The asset to put on offer.
    pub nft_mint: Pubkey,
    /// The bump of the service record.
    pub bump: u8,
    /// The bump of the escrow account.
    pub escrow_bump: u8,
}

/// The record of a service as it is first listed.
pub open spec fn listed(
    ctx: ListService,
    name: Seq<char>,
    description: Seq<char>,
    price: u64,
    payment_mint: Pubkey,
    is_soulbound: bool,
) -> ServiceView {
    ServiceView {
        vendor: ctx.vendor,
        name,
        description,
        price,
        mint: payment_mint,
        is_soulbound,
        nft_mint: ctx.nft_mint,
        bump: ctx.bump,
        escrow_bump: ctx.escrow_bump,
    }
}

impl ListService {
    /// The record of a service as it is first listed.
    pub fn service(
        &self,
        name: String,
        description: String,
        price: u64,
        payment_mint: Pubkey,
        is_soulbound: bool,
    ) -> (service: Service)
        ensures
            service@ == listed(*self, name@, description@, price, payment_mint, is_soulbound),
    {
        Service {
            vendor: self.vendor,
            name,
            description,
            price,
            mint: payment_mint,
            is_soulbound,
            nft_mint: self.nft_mint,
            bump: self.bump,
            escrow_bump: self.escrow_bump,
        }
    }
}

/// The marketplace after the service was listed: the record stands under
/// its name, the asset is in the vault, and the registry has counted it.
///
/// Refused, in this order: with `Uninitialized` where there is no registry;
/// with `DuplicateListing` where the name is taken; with
/// `ArithmeticOverflow` where the registry cannot count further; with
/// `AlreadyEscrowed` where the asset is in the vault; with `NotOwner` where
/// the vendor does not hold the asset.
pub open spec fn outcome(
    before: MarketView,
    ctx: ListService,
    name: Seq<char>,
    description: Seq<char>,
    price: u64,
    payment_mint: Pubkey,
    is_soulbound: bool,
) -> Result<MarketView, ErrorCode> {
    match before.marketplace {
        None => Err(ErrorCode::Uninitialized),
        Some(registry) => if before.services.dom().contains(name) {
            Err(ErrorCode::DuplicateListing)
        } else if registry.total_services == u64::MAX {
            Err(ErrorCode::ArithmeticOverflow)
        } else {
            match after_lock(before.custody, ctx.nft_mint, ctx.vendor) {
                Err(e) => Err(e),
                Ok(custody) => Ok(
                    MarketView {
                        marketplace: Some(registry.counted()),
                        services: before.services.insert(
                            name,
                            listed(ctx, name, description, price, payment_mint, is_soulbound),
                        ),
                        custody,
                    },
                ),
            }
        },
    }
}

/// Listing a service keeps the marketplace consistent.
pub proof fn lemma_outcome_wf(
    before: MarketView,
    ctx: ListService,
    name: Seq<char>,
    description: Seq<char>,
    price: u64,
    payment_mint: Pubkey,
    is_soulbound: bool,
)
    requires
        before.wf(),
    ensures
        outcome(before, ctx, name, description, price, payment_mint, is_soulbound) matches Ok(
            after,
        ) ==> after.wf(),
{
}

/// Lists the service in the parts of a marketplace.
fn list(
    marketplace: &mut Option<Marketplace>,
    listings: &mut Listings,
    vault: &mut EscrowVault,
    ctx: &ListService,
    name: String,
    description: String,
    price: u64,
    payment_mint: Pubkey,
    is_soulbound: bool,
) -> (done: Result<String, ErrorCode>)
    ensures
        match done {
            Ok(id) => id@ == name@ && outcome(
                MarketView {
                    marketplace: *old(marketplace),
                    services: old(listings)@,
                    custody: old(vault)@,
                },
                *ctx,
                name@,
                description@,
                price,
                payment_mint,
                is_soulbound,
            ) == Ok::<MarketView, ErrorCode>(
                MarketView {
                    marketplace: *final(marketplace),
                    services: final(listings)@,
                    custody: final(vault)@,
                },
            ),
            Err(e) => outcome(
                MarketView {
                    marketplace: *old(marketplace),
                    services: old(listings)@,
                    custody: old(vault)@,
                },
                *ctx,
                name@,
                description@,
                price,
                payment_mint,
                is_soulbound,
            ) == Err::<MarketView, ErrorCode>(e) && *final(marketplace) == *old(marketplace)
                && final(listings)@ == old(listings)@ && final(vault)@ == old(vault)@,
        },
{
    let mut registry = match *marketplace {
        None => {
            return Err(ErrorCode::Uninitialized);
        },
        Some(registry) => registry,
    };
    if listings.get(&name).is_some() {
        return Err(ErrorCode::DuplicateListing);
    }
    if registry.total_services == u64::MAX {
        return Err(ErrorCode::ArithmeticOverflow);
    }
    vault.lock(ctx.nft_mint, ctx.vendor)?;
    registry.increment_service_count()?;
    *marketplace = Some(registry);
    let id = name.clone();
    listings.register(ctx.service(name, description, price, payment_mint, is_soulbound))?;
    Ok(id)
}

/// Lists a service: places the asset in escrow and records the offer under
/// `name`, which is handed back as the listing's identifier. On an error
/// nothing has changed.
pub fn handle(
    state: &mut MarketState,
    ctx: &ListService,
    name: String,
    description: String,
    price: u64,
    payment_mint: Pubkey,
    is_soulbound: bool,
) -> (done: Result<String, ErrorCode>)
    ensures
        old(state)@.wf(),
        final(state)@.wf(),
        match done {
            Ok(id) => id@ == name@ && outcome(
                old(state)@,
                *ctx,
                name@,
                description@,
                price,
                payment_mint,
                is_soulbound,
            ) == Ok::<MarketView, ErrorCode>(final(state)@),
            Err(e) => outcome(
                old(state)@,
                *ctx,
                name@,
                description@,
                price,
                payment_mint,
                is_soulbound,
            ) == Err::<MarketView, ErrorCode>(e) && final(state)@ == old(state)@,
        },
{
    let mut taken = MarketState::new();
    std::mem::swap(&mut taken, state);
    let (mut marketplace, mut listings, mut vault) = taken.into_parts();
    proof {
        lemma_outcome_wf(
            old(state)@,
            *ctx,
            name@,
            description@,
            price,
            payment_mint,
            is_soulbound,
        );
    }
    let done = list(
        &mut marketplace,
        &mut listings,
        &mut vault,
        ctx,
        name,
        description,
        price,
        payment_mint,
        is_soulbound,
    );
    *state = MarketState::from_parts(marketplace, listings, vault);
    done
}

} // verus!
