use crate::state::escrow::{after_lock, EscrowVault};
use crate::state::listings::{after_resale, Listings};
use crate::state::market::{MarketState, MarketView};
use crate::state::marketplace::Marketplace;
use crate::state::payment::Payment;
use crate::state::pubkey::Pubkey;
use crate::utils::error::ErrorCode;
use vstd::prelude::*;

verus! {

/// What putting a service on offer again takes, besides its name and its
/// new price.
#[derive(Clone, Copy, Debug, PartialEq, Eq)]
pub struct ResellService {
    /// The seller, who holds the asset.
    pub seller: Pubkey,
    /// What the seller's payment account holds of the listing's currency,
    /// as the currency subsystem reports it.
    pub seller_funds: u64,
    /// Whether the seller's token account for the asset is frozen.
    pub nft_account_frozen: bool,
    /// Who may freeze and thaw token accounts of the asset, if anyone still
    /// may.
    pub freeze_authority: Option<Pubkey>,
}

impl ResellService {
    /// The token is frozen and nobody is left who could thaw it.
    pub open spec fn frozen_for_good(self) -> bool {
        self.nft_account_frozen && self.freeze_authority is None
    }

    /// Whether the token is frozen with nobody left who could thaw it.
    pub fn is_frozen_for_good(&self) -> (frozen: bool)
        ensures
            frozen == self.frozen_for_good(),
    {
        self.nft_account_frozen && self.freeze_authority.is_none()
    }
}

/// The marketplace after the service called `name` was put on offer again at
/// `new_price`, and the payment due: the seller owes the royalty to the
/// treasury, the asset is back in the vault, and the listing's price is what
/// is left after the royalty.
///
/// Refused, in this order: with `Uninitialized` where there is no registry;
/// with `ListingNotFound` where nothing is listed under the name; with
/// `SoulboundNotResellable` where the token is frozen for good or the
/// listing is soulbound; with `ArithmeticUnderflow` where the royalty
/// exceeds the new price; with `InsufficientFunds` where the seller's funds
/// are below the royalty; with `AlreadyEscrowed` where the asset is in the
/// vault; with `NotOwner` where the seller does not hold the asset.
pub open spec fn outcome(
    before: MarketView,
    ctx: ResellService,
    name: Seq<char>,
    new_price: u64,
) -> Result<(MarketView, Payment), ErrorCode> {
    match before.marketplace {
        None => Err(ErrorCode::Uninitialized),
        Some(registry) => if !before.services.dom().contains(name) {
            Err(ErrorCode::ListingNotFound)
        } else if ctx.frozen_for_good() {
            Err(ErrorCode::SoulboundNotResellable)
        } else {
            match after_resale(
                before.services,
                name,
                registry.royalty_percentage,
                ctx.seller,
                new_price,
                ctx.seller_funds,
            ) {
                Err(e) => Err(e),
                Ok(relisted) => match after_lock(
                    before.custody,
                    before.services[name].nft_mint,
                    ctx.seller,
                ) {
                    Err(e) => Err(e),
                    Ok(custody) => Ok(
                        (MarketView { services: relisted.0, custody, ..before }, relisted.1),
                    ),
                },
            }
        },
    }
}

/// A resale keeps the marketplace consistent.
pub proof fn lemma_outcome_wf(
    before: MarketView,
    ctx: ResellService,
    name: Seq<char>,
    new_price: u64,
)
    requires
        before.wf(),
    ensures
        outcome(before, ctx, name, new_price) matches Ok(after) ==> after.0.wf(),
{
    if let Ok(after) = outcome(before, ctx, name, new_price) {
        assert(after.0.services.dom() =~= before.services.dom());
    }
}

/// Settles the resale in the parts of a marketplace.
fn settle(
    marketplace: &Option<Marketplace>,
    listings: &mut Listings,
    vault: &mut EscrowVault,
    ctx: &ResellService,
    name: &String,
    new_price: u64,
) -> (paid: Result<Payment, ErrorCode>)
    ensures
        match paid {
            Ok(payment) => outcome(
                MarketView {
                    marketplace: *marketplace,
                    services: old(listings)@,
                    custody: old(vault)@,
                },
                *ctx,
                name@,
                new_price,
            ) == Ok::<(MarketView, Payment), ErrorCode>(
                (
                    MarketView {
                        marketplace: *marketplace,
                        services: final(listings)@,
                        custody: final(vault)@,
                    },
                    payment,
                ),
            ),
            Err(e) => outcome(
                MarketView {
                    marketplace: *marketplace,
                    services: old(listings)@,
                    custody: old(vault)@,
                },
                *ctx,
                name@,
                new_price,
            ) == Err::<(MarketView, Payment), ErrorCode>(e) && final(listings)@ == old(listings)@
                && final(vault)@ == old(vault)@,
        },
{
    let registry = match marketplace {
        None => {
            return Err(ErrorCode::Uninitialized);
        },
        Some(registry) => registry,
    };
    let asset = match listings.get(name) {
        None => {
            return Err(ErrorCode::ListingNotFound);
        },
        Some(service) => {
            if ctx.is_frozen_for_good() {
                return Err(ErrorCode::SoulboundNotResellable);
            }
            service.quote_resale(registry, ctx.seller, new_price, ctx.seller_funds)?;
            service.nft_mint
        },
    };
    vault.lock(asset, ctx.seller)?;
    listings.resell(name, registry, ctx.seller, new_price, ctx.seller_funds)
}

/// Puts the service called `name` on offer again at `new_price`: the asset
/// goes back into the vault, the royalty is due to the treasury, and the
/// listing's price is what is left. On an error nothing has changed.
pub fn handle(state: &mut MarketState, ctx: &ResellService, name: String, new_price: u64) -> (paid:
    Result<Payment, ErrorCode>)
    ensures
        old(state)@.wf(),
        final(state)@.wf(),
        match paid {
            Ok(payment) => outcome(old(state)@, *ctx, name@, new_price) == Ok::<
                (MarketView, Payment),
                ErrorCode,
            >((final(state)@, payment)),
            Err(e) => outcome(old(state)@, *ctx, name@, new_price) == Err::<
                (MarketView, Payment),
                ErrorCode,
            >(e) && final(state)@ == old(state)@,
        },
{
    let mut taken = MarketState::new();
    std::mem::swap(&mut taken, state);
    let (marketplace, mut listings, mut vault) = taken.into_parts();
    proof {
        lemma_outcome_wf(old(state)@, *ctx, name@, new_price);
    }
    let paid = settle(&marketplace, &mut listings, &mut vault, ctx, &name, new_price);
    *state = MarketState::from_parts(marketplace, listings, vault);
    paid
}

} // verus!
