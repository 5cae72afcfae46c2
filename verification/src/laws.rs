//! What holds of the marketplace whatever it is asked to do, stated over the
//! outcomes of its operations and proved.

use crate::instructions::buy_service::BuyService;
use crate::instructions::initialize_marketplace::InitializeMarketplace;
use crate::instructions::list_service::ListService;
use crate::instructions::mint_service::MintService;
use crate::instructions::resell_service::ResellService;
use crate::instructions::{
    buy_service, initialize_marketplace, list_service, mint_service, resell_service,
};
use crate::state::escrow::{after_lock, Custody};
use crate::state::market::{ListingStatus, MarketView};
use crate::state::marketplace::{
    lemma_royalty_bounded, royalty_of, split_of, MAX_ROYALTY_PERCENTAGE,
};
use crate::state::payment::Payment;
use crate::state::pubkey::Pubkey;
use crate::state::service::ServiceView;
use crate::utils::error::ErrorCode;
use vstd::prelude::*;

verus! {

/// The royalty and the seller's amount add up to the resale price exactly,
/// for every price and every royalty rate from 0 to 100 percent.
pub proof fn law_split_adds_up(new_price: u64, royalty_percentage: u8)
    requires
        royalty_percentage <= MAX_ROYALTY_PERCENTAGE,
    ensures
        split_of(new_price, royalty_percentage) matches Ok(split) && split.royalty
            + split.seller_amount == new_price && split.royalty == royalty_of(
            new_price,
            royalty_percentage,
        ),
{
    lemma_royalty_bounded(new_price, royalty_percentage);
}

/// A soulbound listing refuses every resale, whoever asks, at whatever
/// price and with whatever funds.
pub proof fn law_soulbound_never_resold(
    market: MarketView,
    ctx: ResellService,
    name: Seq<char>,
    new_price: u64,
)
    requires
        market.wf(),
        market.services.dom().contains(name),
        market.services[name].is_soulbound,
    ensures
        resell_service::outcome(market, ctx, name, new_price) == Err::<
            (MarketView, Payment),
            ErrorCode,
        >(ErrorCode::SoulboundNotResellable),
{
    lemma_listed_means_initialized(market, name);
}

/// Once set, the soulbound flag of a listing stays: a purchase changes the
/// owner and nothing else, a resale the price and nothing else.
pub proof fn law_soulbound_flag_is_fixed(
    market: MarketView,
    buy: BuyService,
    resell: ResellService,
    name: Seq<char>,
    new_price: u64,
)
    ensures
        buy_service::outcome(market, buy, name) matches Ok(after) ==> after.0.services[name]
            == (ServiceView { vendor: buy.buyer, ..market.services[name] }),
        resell_service::outcome(market, resell, name, new_price) matches Ok(after)
            ==> after.0.services[name] == (ServiceView {
            price: after.0.services[name].price,
            ..market.services[name]
        }),
{
}

/// A purchase followed at once by a resale of the same listing leaves the
/// listing at the new price less the royalty, owned by the buyer, with the
/// asset back in the vault; the resale can only have been the buyer's.
pub proof fn law_purchase_then_resale(
    market: MarketView,
    buy: BuyService,
    resell: ResellService,
    name: Seq<char>,
    new_price: u64,
)
    requires
        buy_service::outcome(market, buy, name) is Ok,
        resell_service::outcome(
            buy_service::outcome(market, buy, name)->Ok_0.0,
            resell,
            name,
            new_price,
        ) is Ok,
    ensures
        ({
            let bought = buy_service::outcome(market, buy, name)->Ok_0.0;
            let relisted = resell_service::outcome(bought, resell, name, new_price)->Ok_0;
            let rate = market.marketplace->Some_0.royalty_percentage;
            &&& resell.seller == buy.buyer
            &&& relisted.0.services[name].price == new_price - royalty_of(new_price, rate)
            &&& relisted.0.services[name].vendor == buy.buyer
            &&& relisted.1.amount == royalty_of(new_price, rate)
            &&& relisted.0.status(name) == Some(ListingStatus::Escrowed)
        }),
{
}

/// A service on offer that is not soulbound can be bought by whoever has
/// the price, and be put on offer again by the buyer, if the buyer has the
/// royalty and the token is not frozen for good.
pub proof fn law_purchase_then_resale_succeeds(
    market: MarketView,
    buy: BuyService,
    resell: ResellService,
    name: Seq<char>,
    new_price: u64,
)
    requires
        market.wf(),
        market.status(name) == Some(ListingStatus::Escrowed),
        !market.services[name].is_soulbound,
        buy.buyer_funds >= market.services[name].price,
        resell.seller == buy.buyer,
        !resell.frozen_for_good(),
        resell.seller_funds >= royalty_of(
            new_price,
            market.marketplace->Some_0.royalty_percentage,
        ),
    ensures
        buy_service::outcome(market, buy, name) is Ok,
        resell_service::outcome(
            buy_service::outcome(market, buy, name)->Ok_0.0,
            resell,
            name,
            new_price,
        ) is Ok,
{
    lemma_listed_means_initialized(market, name);
    lemma_royalty_bounded(new_price, market.marketplace->Some_0.royalty_percentage);
}

/// Escrowing the same asset a second time before it is released fails with
/// `AlreadyEscrowed`, whoever tries.
pub proof fn law_double_escrow_fails(
    custody: Map<Pubkey, Custody>,
    asset: Pubkey,
    from: Pubkey,
    again: Pubkey,
)
    requires
        after_lock(custody, asset, from) is Ok,
    ensures
        after_lock(after_lock(custody, asset, from)->Ok_0, asset, again) == Err::<
            Map<Pubkey, Custody>,
            ErrorCode,
        >(ErrorCode::AlreadyEscrowed),
{
}

/// The asset of a service on offer cannot be listed a second time, under
/// whatever new name and by whatever vendor.
pub proof fn law_escrowed_asset_is_not_listed_again(
    market: MarketView,
    listed: Seq<char>,
    ctx: ListService,
    name: Seq<char>,
    description: Seq<char>,
    price: u64,
    payment_mint: Pubkey,
    is_soulbound: bool,
)
    requires
        market.wf(),
        market.status(listed) == Some(ListingStatus::Escrowed),
        ctx.nft_mint == market.services[listed].nft_mint,
        !market.services.dom().contains(name),
        market.marketplace->Some_0.total_services < u64::MAX,
    ensures
        list_service::outcome(market, ctx, name, description, price, payment_mint, is_soulbound)
            == Err::<MarketView, ErrorCode>(ErrorCode::AlreadyEscrowed),
{
    lemma_listed_means_initialized(market, listed);
}

/// A second listing under a name that is taken fails with
/// `DuplicateListing`, whatever else it says; the first listing has raised
/// the registry's count by one.
pub proof fn law_duplicate_listing_fails(
    market: MarketView,
    first: ListService,
    second: ListService,
    name: Seq<char>,
    description: Seq<char>,
    price: u64,
    payment_mint: Pubkey,
    is_soulbound: bool,
    other_description: Seq<char>,
    other_price: u64,
    other_payment_mint: Pubkey,
    other_is_soulbound: bool,
)
    requires
        list_service::outcome(market, first, name, description, price, payment_mint, is_soulbound)
            is Ok,
    ensures
        ({
            let after = list_service::outcome(
                market,
                first,
                name,
                description,
                price,
                payment_mint,
                is_soulbound,
            )->Ok_0;
            &&& after.marketplace->Some_0.total_services
                == market.marketplace->Some_0.total_services + 1
            &&& list_service::outcome(
                after,
                second,
                name,
                other_description,
                other_price,
                other_payment_mint,
                other_is_soulbound,
            ) == Err::<MarketView, ErrorCode>(ErrorCode::DuplicateListing)
        }),
{
}

/// A buyer whose funds are below the price of a listed service is refused
/// with `InsufficientFunds`.
pub proof fn law_short_funds_refused(market: MarketView, ctx: BuyService, name: Seq<char>)
    requires
        market.wf(),
        market.services.dom().contains(name),
        ctx.buyer_funds < market.services[name].price,
    ensures
        buy_service::outcome(market, ctx, name) == Err::<(MarketView, Payment), ErrorCode>(
            ErrorCode::InsufficientFunds,
        ),
{
    lemma_listed_means_initialized(market, name);
}

/// A listing goes from on offer to bought and, unless it is soulbound, back:
/// listing a service puts it on offer; only a service on offer is bought,
/// and is bought then; only a bought service that is not soulbound is put on
/// offer again.
pub proof fn law_listing_life_cycle(
    market: MarketView,
    list: ListService,
    buy: BuyService,
    resell: ResellService,
    name: Seq<char>,
    description: Seq<char>,
    price: u64,
    payment_mint: Pubkey,
    is_soulbound: bool,
    new_price: u64,
)
    ensures
        list_service::outcome(market, list, name, description, price, payment_mint, is_soulbound)
            matches Ok(after) ==> market.status(name) is None && after.status(name) == Some(
            ListingStatus::Escrowed,
        ),
        buy_service::outcome(market, buy, name) matches Ok(after) ==> market.status(name) == Some(
            ListingStatus::Escrowed,
        ) && after.0.status(name) == Some(ListingStatus::Sold),
        resell_service::outcome(market, resell, name, new_price) matches Ok(after)
            ==> market.status(name) == Some(ListingStatus::Sold)
            && !market.services[name].is_soulbound && after.0.status(name) == Some(
            ListingStatus::Escrowed,
        ),
{
}

/// A soulbound service that was bought stays where it is: it can neither
/// be bought nor be put on offer again.
pub proof fn law_soulbound_sale_is_final(
    market: MarketView,
    buy: BuyService,
    resell: ResellService,
    name: Seq<char>,
    new_price: u64,
)
    requires
        market.status(name) == Some(ListingStatus::Sold),
        market.services[name].is_soulbound,
    ensures
        buy_service::outcome(market, buy, name) is Err,
        resell_service::outcome(market, resell, name, new_price) is Err,
{
}

/// No operation removes a listing, and only listing a service adds one.
pub proof fn law_listings_stay(
    market: MarketView,
    init: InitializeMarketplace,
    mint: MintService,
    list: ListService,
    buy: BuyService,
    resell: ResellService,
    name: Seq<char>,
    description: Seq<char>,
    uri: Seq<char>,
    price: u64,
    payment_mint: Pubkey,
    is_soulbound: bool,
    new_price: u64,
)
    ensures
        initialize_marketplace::outcome(market, init) matches Ok(after) ==> after.services
            == market.services,
        mint_service::outcome(market, mint, name, uri) matches Ok(after) ==> after.0.services
            == market.services,
        list_service::outcome(market, list, name, description, price, payment_mint, is_soulbound)
            matches Ok(after) ==> after.services.dom() == market.services.dom().insert(name),
        buy_service::outcome(market, buy, name) matches Ok(after) ==> after.0.services.dom()
            == market.services.dom(),
        resell_service::outcome(market, resell, name, new_price) matches Ok(after)
            ==> after.0.services.dom() == market.services.dom(),
{
    if let Ok(after) = buy_service::outcome(market, buy, name) {
        assert(after.0.services.dom() =~= market.services.dom());
    }
    if let Ok(after) = resell_service::outcome(market, resell, name, new_price) {
        assert(after.0.services.dom() =~= market.services.dom());
    }
}

/// The registry changes in one way only once it is created: listing a
/// service raises its count by one. Its authority and its royalty rate stay.
pub proof fn law_registry_only_counts(
    market: MarketView,
    mint: MintService,
    list: ListService,
    buy: BuyService,
    resell: ResellService,
    name: Seq<char>,
    description: Seq<char>,
    uri: Seq<char>,
    price: u64,
    payment_mint: Pubkey,
    is_soulbound: bool,
    new_price: u64,
)
    ensures
        mint_service::outcome(market, mint, name, uri) matches Ok(after) ==> after.0.marketplace
            == market.marketplace,
        list_service::outcome(market, list, name, description, price, payment_mint, is_soulbound)
            matches Ok(after) ==> market.marketplace is Some && after.marketplace == Some(
            market.marketplace->Some_0.counted(),
        ),
        buy_service::outcome(market, buy, name) matches Ok(after) ==> after.0.marketplace
            == market.marketplace,
        resell_service::outcome(market, resell, name, new_price) matches Ok(after)
            ==> after.0.marketplace == market.marketplace,
{
}

/// An asset leaves the vault through the purchase of a service that offers
/// it, and in no other way.
pub proof fn law_only_a_purchase_releases(
    market: MarketView,
    asset: Pubkey,
    init: InitializeMarketplace,
    mint: MintService,
    list: ListService,
    buy: BuyService,
    resell: ResellService,
    name: Seq<char>,
    description: Seq<char>,
    uri: Seq<char>,
    price: u64,
    payment_mint: Pubkey,
    is_soulbound: bool,
    new_price: u64,
)
    requires
        market.custody.dom().contains(asset),
        market.custody[asset] == Custody::Escrowed,
    ensures
        initialize_marketplace::outcome(market, init) matches Ok(after) ==> after.custody[asset]
            == Custody::Escrowed,
        mint_service::outcome(market, mint, name, uri) matches Ok(after)
            ==> after.0.custody[asset] == Custody::Escrowed,
        list_service::outcome(market, list, name, description, price, payment_mint, is_soulbound)
            matches Ok(after) ==> after.custody[asset] == Custody::Escrowed,
        resell_service::outcome(market, resell, name, new_price) matches Ok(after)
            ==> after.0.custody[asset] == Custody::Escrowed,
        buy_service::outcome(market, buy, name) matches Ok(after) ==> if asset
            == market.services[name].nft_mint {
            after.0.custody[asset] == Custody::Held(buy.buyer)
        } else {
            after.0.custody[asset] == Custody::Escrowed
        },
{
}

/// In a consistent marketplace the royalty of a resale never exceeds the
/// price: a resale does not fail with `ArithmeticUnderflow`.
pub proof fn law_no_underflow(
    market: MarketView,
    ctx: ResellService,
    name: Seq<char>,
    new_price: u64,
)
    requires
        market.wf(),
    ensures
        resell_service::outcome(market, ctx, name, new_price) != Err::<
            (MarketView, Payment),
            ErrorCode,
        >(ErrorCode::ArithmeticUnderflow),
{
    if let Some(registry) = market.marketplace {
        lemma_royalty_bounded(new_price, registry.royalty_percentage);
    }
}

/// Where a service is listed, the registry was created before.
proof fn lemma_listed_means_initialized(market: MarketView, name: Seq<char>)
    requires
        market.wf(),
        market.services.dom().contains(name),
    ensures
        market.marketplace is Some,
{
    if market.services.dom().len() == 0 {
        assert(market.services.dom() =~= Set::<Seq<char>>::empty());
    }
}

} // verus!
