use service_marketplace::instructions::mint_service::SELLER_FEE_BASIS_POINTS;
use service_marketplace::{
    buy_service, initialize_marketplace, list_service, mint_service, resell_service, BuyService,
    Custody, ErrorCode, InitializeMarketplace, ListService, ListingStatus, MarketState,
    Marketplace, MintService, Payee, Payment, Pubkey, ResellService, Service, TokenMetadata,
};

const AUTHORITY: u8 = 1;
const VENDOR: u8 = 2;
const BUYER: u8 = 3;
const OTHER: u8 = 4;
const COIN: u8 = 9;
const ASSET: u8 = 20;
const SECOND_ASSET: u8 = 21;

fn key(tag: u8) -> Pubkey {
    Pubkey::new_from_array([tag; 32])
}

fn text(s: &str) -> String {
    s.to_string()
}

fn listing(asset: u8, vendor: u8) -> ListService {
    ListService { vendor: key(vendor), nft_mint: key(asset), bump: 255, escrow_bump: 254 }
}

fn buyer(who: u8, funds: u64) -> BuyService {
    BuyService { buyer: key(who), buyer_funds: funds }
}

fn seller(who: u8, funds: u64) -> ResellService {
    ResellService {
        seller: key(who),
        seller_funds: funds,
        nft_account_frozen: false,
        freeze_authority: Some(key(VENDOR)),
    }
}

/// A marketplace at five percent with one asset minted to the vendor.
fn minted() -> MarketState {
    let mut state = MarketState::new();
    initialize_marketplace(&mut state, &InitializeMarketplace::new(key(AUTHORITY), 250)).unwrap();
    mint_service(
        &mut state,
        &MintService { vendor: key(VENDOR), nft_mint: key(ASSET) },
        text("advice"),
        text("https://example.org/advice.json"),
    )
    .unwrap();
    state
}

/// A marketplace with the service `advice` on offer at 100.
fn listed(is_soulbound: bool) -> MarketState {
    let mut state = minted();
    list_service(
        &mut state,
        &listing(ASSET, VENDOR),
        text("advice"),
        text("an hour of advice"),
        100,
        key(COIN),
        is_soulbound,
    )
    .unwrap();
    state
}

/// A marketplace in which the buyer has bought `advice`.
fn sold(is_soulbound: bool) -> MarketState {
    let mut state = listed(is_soulbound);
    buy_service(&mut state, &buyer(BUYER, 100), text("advice")).unwrap();
    state
}

fn advice(vendor: u8, price: u64, is_soulbound: bool) -> Service {
    Service {
        vendor: key(vendor),
        name: text("advice"),
        description: text("an hour of advice"),
        price,
        mint: key(COIN),
        is_soulbound,
        nft_mint: key(ASSET),
        bump: 255,
        escrow_bump: 254,
    }
}

fn registry(total_services: u64) -> Marketplace {
    Marketplace {
        authority: key(AUTHORITY),
        total_services,
        royalty_percentage: 5,
        bump_array: [250],
        bump: 0,
    }
}

#[test]
fn a_new_marketplace_is_empty() {
    let state = MarketState::new();
    assert_eq!(state.marketplace(), None);
    assert_eq!(state.service_count(), 0);
    assert_eq!(state.service(&text("advice")), None);
    assert_eq!(state.custody_of(&key(ASSET)), None);
}

#[test]
fn initializing_creates_the_registry_at_five_percent() {
    let mut state = MarketState::new();
    assert_eq!(
        initialize_marketplace(&mut state, &InitializeMarketplace::new(key(AUTHORITY), 250)),
        Ok(())
    );
    assert_eq!(state.marketplace(), Some(registry(0)));
}

#[test]
fn initializing_takes_another_rate() {
    let mut state = MarketState::new();
    let ctx = InitializeMarketplace { authority: key(AUTHORITY), royalty_percentage: 100, bump: 1 };
    assert_eq!(initialize_marketplace(&mut state, &ctx), Ok(()));
    assert_eq!(state.marketplace().unwrap().royalty_percentage, 100);
}

#[test]
fn initializing_twice_fails() {
    let mut state = MarketState::new();
    initialize_marketplace(&mut state, &InitializeMarketplace::new(key(AUTHORITY), 250)).unwrap();
    assert_eq!(
        initialize_marketplace(&mut state, &InitializeMarketplace::new(key(OTHER), 7)),
        Err(ErrorCode::AlreadyInitialized)
    );
    assert_eq!(state.marketplace(), Some(registry(0)));
}

#[test]
fn initializing_above_a_hundred_percent_fails() {
    let mut state = MarketState::new();
    let ctx = InitializeMarketplace { authority: key(AUTHORITY), royalty_percentage: 101, bump: 1 };
    assert_eq!(initialize_marketplace(&mut state, &ctx), Err(ErrorCode::InvalidRoyalty));
    assert_eq!(state.marketplace(), None);
    let fine = InitializeMarketplace { authority: key(AUTHORITY), royalty_percentage: 100, bump: 1 };
    assert_eq!(initialize_marketplace(&mut state, &fine), Ok(()));
}

#[test]
fn minting_puts_the_asset_with_the_vendor() {
    let mut state = MarketState::new();
    let minted = mint_service(
        &mut state,
        &MintService { vendor: key(VENDOR), nft_mint: key(ASSET) },
        text("advice"),
        text("https://example.org/advice.json"),
    );
    assert_eq!(
        minted,
        Ok(TokenMetadata {
            name: text("advice"),
            symbol: String::new(),
            uri: text("https://example.org/advice.json"),
            seller_fee_basis_points: 5,
            is_mutable: true,
        })
    );
    assert_eq!(SELLER_FEE_BASIS_POINTS, 5);
    assert_eq!(state.custody_of(&key(ASSET)), Some(Custody::Held(key(VENDOR))));
    assert_eq!(state.marketplace(), None);
}

#[test]
fn minting_the_same_asset_twice_fails() {
    let mut state = minted();
    assert_eq!(
        mint_service(
            &mut state,
            &MintService { vendor: key(OTHER), nft_mint: key(ASSET) },
            text("advice"),
            text("elsewhere"),
        ),
        Err(ErrorCode::DuplicateAsset)
    );
    assert_eq!(state.custody_of(&key(ASSET)), Some(Custody::Held(key(VENDOR))));
}

#[test]
fn listing_needs_the_registry() {
    let mut state = MarketState::new();
    mint_service(
        &mut state,
        &MintService { vendor: key(VENDOR), nft_mint: key(ASSET) },
        text("advice"),
        text("uri"),
    )
    .unwrap();
    assert_eq!(
        list_service(
            &mut state,
            &listing(ASSET, VENDOR),
            text("advice"),
            text("an hour of advice"),
            100,
            key(COIN),
            false,
        ),
        Err(ErrorCode::Uninitialized)
    );
    assert_eq!(state.service_count(), 0);
    assert_eq!(state.custody_of(&key(ASSET)), Some(Custody::Held(key(VENDOR))));
}

#[test]
fn listing_escrows_the_asset_and_counts_the_service() {
    let state = listed(false);
    assert_eq!(state.service(&text("advice")), Some(&advice(VENDOR, 100, false)));
    assert_eq!(state.custody_of(&key(ASSET)), Some(Custody::Escrowed));
    assert_eq!(state.marketplace(), Some(registry(1)));
    assert_eq!(state.service_count(), 1);
}

#[test]
fn a_second_listing_under_the_same_name_fails_and_is_not_counted() {
    let mut state = listed(false);
    mint_service(
        &mut state,
        &MintService { vendor: key(OTHER), nft_mint: key(SECOND_ASSET) },
        text("more advice"),
        text("uri"),
    )
    .unwrap();
    assert_eq!(
        list_service(
            &mut state,
            &listing(SECOND_ASSET, OTHER),
            text("advice"),
            text("another hour"),
            7,
            key(COIN),
            true,
        ),
        Err(ErrorCode::DuplicateListing)
    );
    assert_eq!(state.marketplace().unwrap().total_services, 1);
    assert_eq!(state.service_count(), 1);
    assert_eq!(state.service(&text("advice")), Some(&advice(VENDOR, 100, false)));
    assert_eq!(state.custody_of(&key(SECOND_ASSET)), Some(Custody::Held(key(OTHER))));
    assert_eq!(state.custody_of(&key(ASSET)), Some(Custody::Escrowed));
}

#[test]
fn listing_the_same_twice_fails_and_is_not_counted() {
    let mut state = listed(false);
    assert_eq!(
        list_service(
            &mut state,
            &listing(ASSET, VENDOR),
            text("advice"),
            text("an hour of advice"),
            100,
            key(COIN),
            false,
        ),
        Err(ErrorCode::DuplicateListing)
    );
    assert_eq!(state.marketplace(), Some(registry(1)));
}

#[test]
fn an_escrowed_asset_cannot_be_listed_again() {
    let mut state = listed(false);
    for vendor in [VENDOR, OTHER] {
        assert_eq!(
            list_service(
                &mut state,
                &listing(ASSET, vendor),
                text("advice, again"),
                text("an hour of advice"),
                100,
                key(COIN),
                false,
            ),
            Err(ErrorCode::AlreadyEscrowed)
        );
    }
    assert_eq!(state.marketplace(), Some(registry(1)));
    assert_eq!(state.service(&text("advice, again")), None);
}

#[test]
fn only_the_holder_can_list_an_asset() {
    let mut state = minted();
    assert_eq!(
        list_service(
            &mut state,
            &listing(ASSET, OTHER),
            text("advice"),
            text("an hour of advice"),
            100,
            key(COIN),
            false,
        ),
        Err(ErrorCode::NotOwner)
    );
    assert_eq!(
        list_service(
            &mut state,
            &listing(SECOND_ASSET, VENDOR),
            text("advice"),
            text("an hour of advice"),
            100,
            key(COIN),
            false,
        ),
        Err(ErrorCode::NotOwner)
    );
    assert_eq!(state.marketplace(), Some(registry(0)));
    assert_eq!(state.service(&text("advice")), None);
    assert_eq!(state.custody_of(&key(ASSET)), Some(Custody::Held(key(VENDOR))));
    assert_eq!(state.custody_of(&key(SECOND_ASSET)), None);
}

#[test]
fn buying_needs_the_registry() {
    let mut state = MarketState::new();
    assert_eq!(
        buy_service(&mut state, &buyer(BUYER, 100), text("advice")),
        Err(ErrorCode::Uninitialized)
    );
    assert_eq!(
        resell_service(&mut state, &seller(BUYER, 100), text("advice"), 100),
        Err(ErrorCode::Uninitialized)
    );
}

#[test]
fn buying_what_is_not_listed_fails() {
    let mut state = listed(false);
    assert_eq!(
        buy_service(&mut state, &buyer(BUYER, 100), text("repair")),
        Err(ErrorCode::ListingNotFound)
    );
    assert_eq!(
        resell_service(&mut state, &seller(BUYER, 100), text("repair"), 100),
        Err(ErrorCode::ListingNotFound)
    );
}

#[test]
fn buying_with_short_funds_fails_and_changes_nothing() {
    let mut state = listed(false);
    for funds in [0, 1, 99] {
        assert_eq!(
            buy_service(&mut state, &buyer(BUYER, funds), text("advice")),
            Err(ErrorCode::InsufficientFunds)
        );
        assert_eq!(state.service(&text("advice")), Some(&advice(VENDOR, 100, false)));
        assert_eq!(state.custody_of(&key(ASSET)), Some(Custody::Escrowed));
        assert_eq!(state.marketplace(), Some(registry(1)));
        assert_eq!(state.service_count(), 1);
    }
}

#[test]
fn buying_hands_the_asset_to_the_buyer_and_the_price_to_the_vendor() {
    let mut state = listed(false);
    assert_eq!(
        buy_service(&mut state, &buyer(BUYER, 100), text("advice")),
        Ok(Payment {
            payer: key(BUYER),
            payee: Payee::Account(key(VENDOR)),
            mint: key(COIN),
            amount: 100,
        })
    );
    assert_eq!(state.service(&text("advice")), Some(&advice(BUYER, 100, false)));
    assert_eq!(state.custody_of(&key(ASSET)), Some(Custody::Held(key(BUYER))));
    assert_eq!(state.marketplace(), Some(registry(1)));
}

#[test]
fn a_sold_service_cannot_be_bought_out_of_an_empty_escrow() {
    let mut state = sold(false);
    assert_eq!(
        buy_service(&mut state, &buyer(OTHER, 100), text("advice")),
        Err(ErrorCode::NotEscrowed)
    );
    assert_eq!(state.service(&text("advice")), Some(&advice(BUYER, 100, false)));
    assert_eq!(state.custody_of(&key(ASSET)), Some(Custody::Held(key(BUYER))));
}

#[test]
fn short_funds_are_reported_before_an_empty_escrow() {
    let mut state = sold(false);
    assert_eq!(
        buy_service(&mut state, &buyer(OTHER, 99), text("advice")),
        Err(ErrorCode::InsufficientFunds)
    );
}

#[test]
fn royalty_of_five_percent_on_a_resale_at_a_thousand() {
    let mut state = sold(false);
    assert_eq!(
        resell_service(&mut state, &seller(BUYER, 50), text("advice"), 1000),
        Ok(Payment { payer: key(BUYER), payee: Payee::Treasury, mint: key(COIN), amount: 50 })
    );
    assert_eq!(state.service(&text("advice")), Some(&advice(BUYER, 950, false)));
}

#[test]
fn purchase_then_resale_leaves_the_buyer_as_owner_at_the_price_less_royalty() {
    let mut state = listed(false);
    buy_service(&mut state, &buyer(BUYER, 100), text("advice")).unwrap();
    let royalty = resell_service(&mut state, &seller(BUYER, 1000), text("advice"), 777).unwrap();
    assert_eq!(royalty.amount, 38);
    let relisted = state.service(&text("advice")).unwrap();
    assert_eq!(relisted.price, 777 - 38);
    assert_eq!(relisted.vendor, key(BUYER));
    assert_eq!(state.custody_of(&key(ASSET)), Some(Custody::Escrowed));
    assert_eq!(state.marketplace(), Some(registry(1)));
}

#[test]
fn a_resold_service_can_be_bought_again() {
    let mut state = sold(false);
    resell_service(&mut state, &seller(BUYER, 50), text("advice"), 1000).unwrap();
    assert_eq!(
        buy_service(&mut state, &buyer(OTHER, 950), text("advice")),
        Ok(Payment {
            payer: key(OTHER),
            payee: Payee::Account(key(BUYER)),
            mint: key(COIN),
            amount: 950,
        })
    );
    assert_eq!(state.service(&text("advice")), Some(&advice(OTHER, 950, false)));
    assert_eq!(state.custody_of(&key(ASSET)), Some(Custody::Held(key(OTHER))));
}

#[test]
fn a_soulbound_listing_rejects_every_resale() {
    let mut state = sold(true);
    for who in [AUTHORITY, VENDOR, BUYER, OTHER] {
        for price in [0, 1, 100, 1000, u64::MAX] {
            for funds in [0, 50, u64::MAX] {
                assert_eq!(
                    resell_service(&mut state, &seller(who, funds), text("advice"), price),
                    Err(ErrorCode::SoulboundNotResellable)
                );
            }
        }
    }
    assert_eq!(state.service(&text("advice")), Some(&advice(BUYER, 100, true)));
    assert_eq!(state.custody_of(&key(ASSET)), Some(Custody::Held(key(BUYER))));
}

#[test]
fn a_soulbound_listing_rejects_a_resale_while_in_escrow_too() {
    let mut state = listed(true);
    assert_eq!(
        resell_service(&mut state, &seller(VENDOR, 50), text("advice"), 1000),
        Err(ErrorCode::SoulboundNotResellable)
    );
    assert_eq!(state.service(&text("advice")), Some(&advice(VENDOR, 100, true)));
}

#[test]
fn a_token_frozen_for_good_is_not_resold() {
    let mut state = sold(false);
    let frozen = ResellService {
        seller: key(BUYER),
        seller_funds: 50,
        nft_account_frozen: true,
        freeze_authority: None,
    };
    assert_eq!(
        resell_service(&mut state, &frozen, text("advice"), 1000),
        Err(ErrorCode::SoulboundNotResellable)
    );
    assert_eq!(state.service(&text("advice")), Some(&advice(BUYER, 100, false)));
    assert_eq!(state.custody_of(&key(ASSET)), Some(Custody::Held(key(BUYER))));
}

#[test]
fn a_frozen_token_that_can_be_thawed_is_resold() {
    let mut state = sold(false);
    let frozen = ResellService {
        seller: key(BUYER),
        seller_funds: 50,
        nft_account_frozen: true,
        freeze_authority: Some(key(VENDOR)),
    };
    assert_eq!(frozen.is_frozen_for_good(), false);
    assert_eq!(resell_service(&mut state, &frozen, text("advice"), 1000).unwrap().amount, 50);
    let thawed = ResellService {
        seller: key(BUYER),
        seller_funds: 50,
        nft_account_frozen: false,
        freeze_authority: None,
    };
    assert_eq!(thawed.is_frozen_for_good(), false);
}

#[test]
fn a_resale_without_the_royalty_in_hand_fails_and_changes_nothing() {
    let mut state = sold(false);
    assert_eq!(
        resell_service(&mut state, &seller(BUYER, 49), text("advice"), 1000),
        Err(ErrorCode::InsufficientFunds)
    );
    assert_eq!(state.service(&text("advice")), Some(&advice(BUYER, 100, false)));
    assert_eq!(state.custody_of(&key(ASSET)), Some(Custody::Held(key(BUYER))));
}

#[test]
fn only_the_holder_can_resell() {
    let mut state = sold(false);
    for who in [AUTHORITY, VENDOR, OTHER] {
        assert_eq!(
            resell_service(&mut state, &seller(who, 50), text("advice"), 1000),
            Err(ErrorCode::NotOwner)
        );
    }
    assert_eq!(state.service(&text("advice")), Some(&advice(BUYER, 100, false)));
    assert_eq!(state.custody_of(&key(ASSET)), Some(Custody::Held(key(BUYER))));
}

#[test]
fn a_service_in_escrow_cannot_be_resold() {
    let mut state = listed(false);
    assert_eq!(
        resell_service(&mut state, &seller(VENDOR, 50), text("advice"), 1000),
        Err(ErrorCode::AlreadyEscrowed)
    );
    assert_eq!(state.service(&text("advice")), Some(&advice(VENDOR, 100, false)));
    assert_eq!(state.custody_of(&key(ASSET)), Some(Custody::Escrowed));
}

#[test]
fn a_resale_at_a_hundred_percent_relists_for_nothing() {
    let mut state = MarketState::new();
    let ctx = InitializeMarketplace { authority: key(AUTHORITY), royalty_percentage: 100, bump: 1 };
    initialize_marketplace(&mut state, &ctx).unwrap();
    mint_service(
        &mut state,
        &MintService { vendor: key(VENDOR), nft_mint: key(ASSET) },
        text("advice"),
        text("uri"),
    )
    .unwrap();
    list_service(
        &mut state,
        &listing(ASSET, VENDOR),
        text("advice"),
        text("an hour of advice"),
        100,
        key(COIN),
        false,
    )
    .unwrap();
    buy_service(&mut state, &buyer(BUYER, 100), text("advice")).unwrap();
    let royalty =
        resell_service(&mut state, &seller(BUYER, u64::MAX), text("advice"), u64::MAX).unwrap();
    assert_eq!(royalty.amount, u64::MAX);
    assert_eq!(state.service(&text("advice")).unwrap().price, 0);
}

#[test]
fn many_services_are_counted_and_kept_apart() {
    let mut state = MarketState::new();
    initialize_marketplace(&mut state, &InitializeMarketplace::new(key(AUTHORITY), 250)).unwrap();
    for i in 0..40u8 {
        let asset = 100 + i;
        mint_service(
            &mut state,
            &MintService { vendor: key(VENDOR), nft_mint: key(asset) },
            format!("service {i}"),
            format!("uri {i}"),
        )
        .unwrap();
        list_service(
            &mut state,
            &listing(asset, VENDOR),
            format!("service {i}"),
            text("d"),
            i as u64 * 10,
            key(COIN),
            i % 2 == 0,
        )
        .unwrap();
    }
    assert_eq!(state.service_count(), 40);
    assert_eq!(state.marketplace().unwrap().total_services, 40);
    for i in (0..40u8).filter(|i| i % 3 == 0) {
        let paid = buy_service(&mut state, &buyer(BUYER, u64::MAX), format!("service {i}"));
        assert_eq!(paid.unwrap().amount, i as u64 * 10);
    }
    for i in 0..40u8 {
        let found = state.service(&format!("service {i}")).unwrap();
        assert_eq!(found.price, i as u64 * 10);
        assert_eq!(found.is_soulbound, i % 2 == 0);
        assert_eq!(found.nft_mint, key(100 + i));
        let (owner, custody) = if i % 3 == 0 {
            (key(BUYER), Custody::Held(key(BUYER)))
        } else {
            (key(VENDOR), Custody::Escrowed)
        };
        assert_eq!(found.vendor, owner);
        assert_eq!(state.custody_of(&key(100 + i)), Some(custody));
    }
    assert_eq!(state.marketplace().unwrap().total_services, 40);
}

#[test]
fn the_handlers_are_the_entry_points() {
    let mut state = MarketState::new();
    service_marketplace::instructions::initialize_marketplace::handle(
        &mut state,
        &InitializeMarketplace::new(key(AUTHORITY), 250),
    )
    .unwrap();
    service_marketplace::instructions::mint_service::handle(
        &mut state,
        &MintService { vendor: key(VENDOR), nft_mint: key(ASSET) },
        text("advice"),
        text("uri"),
    )
    .unwrap();
    service_marketplace::instructions::list_service::handle(
        &mut state,
        &listing(ASSET, VENDOR),
        text("advice"),
        text("an hour of advice"),
        100,
        key(COIN),
        false,
    )
    .unwrap();
    let paid = service_marketplace::instructions::buy_service::handle(
        &mut state,
        &buyer(BUYER, 100),
        text("advice"),
    )
    .unwrap();
    assert_eq!(paid.amount, 100);
    let royalty = service_marketplace::instructions::resell_service::handle(
        &mut state,
        &seller(BUYER, 50),
        text("advice"),
        1000,
    )
    .unwrap();
    assert_eq!(royalty.amount, 50);
    assert_eq!(state.service(&text("advice")), Some(&advice(BUYER, 950, false)));
}

#[test]
fn a_listing_goes_from_on_offer_to_sold_and_back() {
    let mut state = minted();
    assert_eq!(state.status(&text("advice")), None);
    list_service(
        &mut state,
        &listing(ASSET, VENDOR),
        text("advice"),
        text("an hour of advice"),
        100,
        key(COIN),
        false,
    )
    .unwrap();
    assert_eq!(state.status(&text("advice")), Some(ListingStatus::Escrowed));
    buy_service(&mut state, &buyer(BUYER, 100), text("advice")).unwrap();
    assert_eq!(state.status(&text("advice")), Some(ListingStatus::Sold));
    resell_service(&mut state, &seller(BUYER, 50), text("advice"), 1000).unwrap();
    assert_eq!(state.status(&text("advice")), Some(ListingStatus::Escrowed));
    assert_eq!(state.status(&text("repair")), None);
}

#[test]
fn a_soulbound_sale_is_final() {
    let mut state = sold(true);
    assert_eq!(state.status(&text("advice")), Some(ListingStatus::Sold));
    assert!(buy_service(&mut state, &buyer(OTHER, u64::MAX), text("advice")).is_err());
    assert!(resell_service(&mut state, &seller(BUYER, u64::MAX), text("advice"), 1).is_err());
    assert_eq!(state.status(&text("advice")), Some(ListingStatus::Sold));
    assert_eq!(state.service(&text("advice")), Some(&advice(BUYER, 100, true)));
}

#[test]
fn a_request_to_initialize_defaults_to_five_percent() {
    assert_eq!(
        InitializeMarketplace::new(key(AUTHORITY), 250),
        InitializeMarketplace { authority: key(AUTHORITY), royalty_percentage: 5, bump: 250 }
    );
}

#[test]
fn a_listing_request_builds_the_record() {
    let built = listing(ASSET, VENDOR).service(
        text("advice"),
        text("an hour of advice"),
        100,
        key(COIN),
        true,
    );
    assert_eq!(built, advice(VENDOR, 100, true));
}

#[test]
fn the_metadata_of_a_service_has_no_symbol_and_the_fixed_fee() {
    assert_eq!(
        TokenMetadata::for_service(text("advice"), text("uri")),
        TokenMetadata {
            name: text("advice"),
            symbol: text(""),
            uri: text("uri"),
            seller_fee_basis_points: 5,
            is_mutable: true,
        }
    );
}

#[test]
fn names_are_told_apart_by_every_character() {
    let mut state = minted();
    mint_service(
        &mut state,
        &MintService { vendor: key(VENDOR), nft_mint: key(SECOND_ASSET) },
        text("Advice"),
        text("uri"),
    )
    .unwrap();
    list_service(
        &mut state,
        &listing(ASSET, VENDOR),
        text("advice"),
        text("d"),
        1,
        key(COIN),
        false,
    )
    .unwrap();
    assert_eq!(
        list_service(
            &mut state,
            &listing(SECOND_ASSET, VENDOR),
            text("Advice"),
            text("d"),
            2,
            key(COIN),
            false,
        ),
        Ok(text("Advice"))
    );
    assert_eq!(state.service(&text("advice")).unwrap().price, 1);
    assert_eq!(state.service(&text("Advice")).unwrap().price, 2);
    assert_eq!(state.service(&text("advice ")), None);
    assert_eq!(state.marketplace().unwrap().total_services, 2);
}

#[test]
fn listing_hands_back_the_name_as_the_identifier_to_buy_under() {
    let mut state = minted();
    let id = list_service(
        &mut state,
        &listing(ASSET, VENDOR),
        text("advice"),
        text("an hour of advice"),
        100,
        key(COIN),
        false,
    )
    .unwrap();
    assert_eq!(id, "advice");
    assert_eq!(buy_service(&mut state, &buyer(BUYER, 100), id).unwrap().amount, 100);
}
