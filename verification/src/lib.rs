//! A two-sided marketplace for services.
//!
//! Vendors list services, with the service agreement carried by an asset
//! that is held in escrow while the service is on offer. Consumers buy
//! listed services. A service is either soulbound, and then stays with its
//! first buyer, or it can be put on offer again, and then the marketplace
//! collects a royalty on the resale.
//!
//! The marketplace keeps no balances. An operation checks what the caller
//! reports of the payer's funds, changes the marketplace's own records, and
//! hands back the payment that the currency subsystem is to make with it.
//! Every operation is all-or-nothing: when it refuses, nothing has changed.

pub mod instructions;
pub mod laws;
pub mod state;
pub mod utils;

pub use instructions::{
    BuyService, InitializeMarketplace, ListService, MintService, ResellService, TokenMetadata,
};
pub use state::{
    Custody, EscrowVault, ListingStatus, Listings, MarketState, MarketView, Marketplace, Payee,
    Payment, Pubkey, Service,
};
pub use utils::ErrorCode;

use instructions::mint_service::TokenMetadataView;
use vstd::prelude::*;

verus! {

/// Creates the marketplace's registry, once.
pub fn initialize_marketplace(state: &mut MarketState, ctx: &InitializeMarketplace) -> (done:
    Result<(), ErrorCode>)
    ensures
        old(state)@.wf(),
        final(state)@.wf(),
        match done {
            Ok(()) => instructions::initialize_marketplace::outcome(old(state)@, *ctx) == Ok::<
                MarketView,
                ErrorCode,
            >(final(state)@),
            Err(e) => instructions::initialize_marketplace::outcome(old(state)@, *ctx) == Err::<
                MarketView,
                ErrorCode,
            >(e) && final(state)@ == old(state)@,
        },
{
    instructions::initialize_marketplace::handle(state, ctx)
}

/// Mints a fresh service asset to the vendor.
pub fn mint_service(state: &mut MarketState, ctx: &MintService, name: String, uri: String) -> (minted:
    Result<TokenMetadata, ErrorCode>)
    ensures
        old(state)@.wf(),
        final(state)@.wf(),
        match minted {
            Ok(metadata) => instructions::mint_service::outcome(old(state)@, *ctx, name@, uri@)
                == Ok::<(MarketView, TokenMetadataView), ErrorCode>((final(state)@, metadata@)),
            Err(e) => instructions::mint_service::outcome(old(state)@, *ctx, name@, uri@) == Err::<
                (MarketView, TokenMetadataView),
                ErrorCode,
            >(e) && final(state)@ == old(state)@,
        },
{
    instructions::mint_service::handle(state, ctx, name, uri)
}

/// list service places the service asset in escrow and records the offer
/// under its name, which is the listing's identifier
pub fn list_service(
    state: &mut MarketState,
    ctx: &ListService,
    name: String,
    description: String,
    price: u64,
    payment_mint: Pubkey,
    is_soulbound: bool,
) -> (done: Result<String, ErrorCode>)
    ensures
        old(state)@.wf(),
        final(state)@.wf(),
        match done {
            Ok(id) => id@ == name@ && instructions::list_service::outcome(
                old(state)@,
                *ctx,
                name@,
                description@,
                price,
                payment_mint,
                is_soulbound,
            ) == Ok::<MarketView, ErrorCode>(final(state)@),
            Err(e) => instructions::list_service::outcome(
                old(state)@,
                *ctx,
                name@,
                description@,
                price,
                payment_mint,
                is_soulbound,
            ) == Err::<MarketView, ErrorCode>(e) && final(state)@ == old(state)@,
        },
{
    instructions::list_service::handle(
        state,
        ctx,
        name,
        description,
        price,
        payment_mint,
        is_soulbound,
    )
}

/// purchase a service allows anyone to buy the service asset; the payment
/// handed back goes to the vendor
pub fn buy_service(state: &mut MarketState, ctx: &BuyService, name: String) -> (paid: Result<
    Payment,
    ErrorCode,
>)
    ensures
        old(state)@.wf(),
        final(state)@.wf(),
        match paid {
            Ok(payment) => instructions::buy_service::outcome(old(state)@, *ctx, name@) == Ok::<
                (MarketView, Payment),
                ErrorCode,
            >((final(state)@, payment)),
            Err(e) => instructions::buy_service::outcome(old(state)@, *ctx, name@) == Err::<
                (MarketView, Payment),
                ErrorCode,
            >(e) && final(state)@ == old(state)@,
        },
{
    instructions::buy_service::handle(state, ctx, name)
}

/// Puts a bought service on offer again; the payment handed back is the
/// marketplace's royalty.
pub fn resell_service(
    state: &mut MarketState,
    ctx: &ResellService,
    name: String,
    new_price: u64,
) -> (paid: Result<Payment, ErrorCode>)
    ensures
        old(state)@.wf(),
        final(state)@.wf(),
        match paid {
            Ok(payment) => instructions::resell_service::outcome(
                old(state)@,
                *ctx,
                name@,
                new_price,
            ) == Ok::<(MarketView, Payment), ErrorCode>((final(state)@, payment)),
            Err(e) => instructions::resell_service::outcome(old(state)@, *ctx, name@, new_price)
                == Err::<(MarketView, Payment), ErrorCode>(e) && final(state)@ == old(state)@,
        },
{
    instructions::resell_service::handle(state, ctx, name, new_price)
}

} // verus!
