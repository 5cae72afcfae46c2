use crate::state::escrow::{after_release, EscrowVault};
use crate::state::listings::{after_purchase, Listings};
use crate::state::market::{MarketState, MarketView};
use crate::state::marketplace::Marketplace;
use crate::state::payment::Payment;
use crate::state::pubkey::Pubkey;
use crate::utils::error::ErrorCode;
use vstd::prelude::*;

verus! {

/// What buying a service takes, besides its name.
#[derive(Clone, Copy, Debug, PartialEq, Eq)]
pub struct BuyService {
    /// The buyer of the service.
    pub buyer: Pubkey,
    /// What the buyer's payment account holds of the listing's currency, as
    /// the currency subsystem reports it.
    pub buyer_funds: u64,
}

/// The marketplace after the service called `name` was bought, and the
/// payment due: the buyer owes the price to the owner before, has the asset
/// out of the vault, and is the listing's owner from now on.
///
/// Refused, in this order: with `Uninitialized` where there is no registry;
/// with `ListingNotFound` where nothing is listed under the name; with
/// `InsufficientFunds` where the buyer's funds are below the price; with
/// `NotEscrowed` where the asset is not in the vault.
pub open spec fn outcome(before: MarketView, ctx: BuyService, name: Seq<char>) -> Result<
    (MarketView, Payment),
    ErrorCode,
> {
    if before.marketplace is None {
        Err(ErrorCode::Uninitialized)
    } else {
        match after_purchase(before.services, name, ctx.buyer, ctx.buyer_funds) {
            Err(e) => Err(e),
            Ok(sold) => match after_release(
                before.custody,
                before.services[name].nft_mint,
                ctx.buyer,
            ) {
                Err(e) => Err(e),
                Ok(custody) => Ok((MarketView { services: sold.0, custody, ..before }, sold.1)),
            },
        }
    }
}

/// A purchase keeps the marketplace consistent.
pub proof fn lemma_outcome_wf(before: MarketView, ctx: BuyService, name: Seq<char>)
    requires
        before.wf(),
    ensures
        outcome(before, ctx, name) matches Ok(after) ==> after.0.wf(),
{
    if let Ok(after) = outcome(before, ctx, name) {
        assert(after.0.services.dom() =~= before.services.dom());
    }
}

/// Settles the purchase in the parts of a marketplace.
fn settle(
    marketplace: &Option<Marketplace>,
    listings: &mut Listings,
    vault: &mut EscrowVault,
    ctx: &BuyService,
    name: &String,
) -> (paid: Result<Payment, ErrorCode>)
    ensures
        match paid {
            Ok(payment) => outcome(
                MarketView {
                    marketplace: *marketplace,
                    services: old(listings)@,
                    custody: old(vault)@,
                },
                *ctx,
                name@,
            ) == Ok::<(MarketView, Payment), ErrorCode>(
                (
                    MarketView {
                        marketplace: *marketplace,
                        services: final(listings)@,
                        custody: final(vault)@,
                    },
                    payment,
                ),
            ),
            Err(e) => outcome(
                MarketView {
                    marketplace: *marketplace,
                    services: old(listings)@,
                    custody: old(vault)@,
                },
                *ctx,
                name@,
            ) == Err::<(MarketView, Payment), ErrorCode>(e) && final(listings)@ == old(listings)@
                && final(vault)@ == old(vault)@,
        },
{
    if marketplace.is_none() {
        return Err(ErrorCode::Uninitialized);
    }
    let asset = match listings.get(name) {
        None => {
            return Err(ErrorCode::ListingNotFound);
        },
        Some(service) => {
            service.quote_purchase(ctx.buyer, ctx.buyer_funds)?;
            service.nft_mint
        },
    };
    vault.release(asset, ctx.buyer)?;
    listings.purchase(name, ctx.buyer, ctx.buyer_funds)
}

/// Buys the service called `name`: the asset leaves the vault for the buyer,
/// who becomes the listing's owner, and the price is due to the owner
/// before. On an error nothing has changed.
pub fn handle(state: &mut MarketState, ctx: &BuyService, name: String) -> (paid: Result<
    Payment,
    ErrorCode,
>)
    ensures
        old(state)@.wf(),
        final(state)@.wf(),
        match paid {
            Ok(payment) => outcome(old(state)@, *ctx, name@) == Ok::<
                (MarketView, Payment),
                ErrorCode,
            >((final(state)@, payment)),
            Err(e) => outcome(old(state)@, *ctx, name@) == Err::<(MarketView, Payment), ErrorCode>(
                e,
            ) && final(state)@ == old(state)@,
        },
{
    let mut taken = MarketState::new();
    std::mem::swap(&mut taken, state);
    let (marketplace, mut listings, mut vault) = taken.into_parts();
    proof {
        lemma_outcome_wf(old(state)@, *ctx, name@);
    }
    let paid = settle(&marketplace, &mut listings, &mut vault, ctx, &name);
    *state = MarketState::from_parts(marketplace, listings, vault);
    paid
}

} // verus!
