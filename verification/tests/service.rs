use service_marketplace::{
    ErrorCode, Listings, Marketplace, Payee, Payment, Pubkey, Service,
};

fn key(tag: u8) -> Pubkey {
    Pubkey::new_from_array([tag; 32])
}

fn service(name: &str, price: u64, is_soulbound: bool) -> Service {
    Service {
        vendor: key(2),
        name: name.to_string(),
        description: "an hour of advice".to_string(),
        price,
        mint: key(9),
        is_soulbound,
        nft_mint: key(4),
        bump: 255,
        escrow_bump: 254,
    }
}

fn registry(royalty_percentage: u8) -> Marketplace {
    Marketplace::initialize(key(1), royalty_percentage, 254).unwrap()
}

#[test]
fn a_purchase_pays_the_price_to_the_vendor() {
    let mut listed = service("advice", 100, false);
    let paid = listed.purchase(key(3), 100);
    assert_eq!(
        paid,
        Ok(Payment { payer: key(3), payee: Payee::Account(key(2)), mint: key(9), amount: 100 })
    );
    let mut expected = service("advice", 100, false);
    expected.vendor = key(3);
    assert_eq!(listed, expected);
}

#[test]
fn a_purchase_with_more_than_the_price_pays_the_price() {
    let mut listed = service("advice", 100, true);
    let paid = listed.purchase(key(3), u64::MAX).unwrap();
    assert_eq!(paid.amount, 100);
    assert_eq!(listed.vendor, key(3));
    assert!(listed.is_soulbound);
}

#[test]
fn a_purchase_with_short_funds_changes_nothing() {
    let mut listed = service("advice", 100, false);
    assert_eq!(listed.purchase(key(3), 99), Err(ErrorCode::InsufficientFunds));
    assert_eq!(listed, service("advice", 100, false));
    assert_eq!(listed.purchase(key(3), 0), Err(ErrorCode::InsufficientFunds));
    assert_eq!(listed, service("advice", 100, false));
}

#[test]
fn a_free_service_can_be_bought_with_nothing() {
    let mut listed = service("advice", 0, false);
    let paid = listed.purchase(key(3), 0).unwrap();
    assert_eq!(paid.amount, 0);
    assert_eq!(listed.vendor, key(3));
}

#[test]
fn a_quote_changes_nothing() {
    let listed = service("advice", 100, false);
    assert_eq!(
        listed.quote_purchase(key(3), 100),
        Ok(Payment { payer: key(3), payee: Payee::Account(key(2)), mint: key(9), amount: 100 })
    );
    assert_eq!(listed.quote_purchase(key(3), 99), Err(ErrorCode::InsufficientFunds));
    assert_eq!(
        listed.quote_resale(&registry(5), key(2), 1000, 50),
        Ok(Payment { payer: key(2), payee: Payee::Treasury, mint: key(9), amount: 50 })
    );
    assert_eq!(
        listed.quote_resale(&registry(5), key(2), 1000, 49),
        Err(ErrorCode::InsufficientFunds)
    );
    assert_eq!(listed, service("advice", 100, false));
}

#[test]
fn a_resale_sets_the_price_to_what_is_left_after_the_royalty() {
    let mut listed = service("advice", 100, false);
    let paid = listed.resell(&registry(5), key(2), 1000, 50);
    assert_eq!(
        paid,
        Ok(Payment { payer: key(2), payee: Payee::Treasury, mint: key(9), amount: 50 })
    );
    assert_eq!(listed, service("advice", 950, false));
}

#[test]
fn a_resale_at_zero_percent_owes_nothing() {
    let mut listed = service("advice", 100, false);
    let paid = listed.resell(&registry(0), key(2), 1000, 0).unwrap();
    assert_eq!(paid.amount, 0);
    assert_eq!(listed.price, 1000);
}

#[test]
fn a_resale_at_a_hundred_percent_leaves_nothing() {
    let mut listed = service("advice", 100, false);
    let paid = listed.resell(&registry(100), key(2), 1000, 1000).unwrap();
    assert_eq!(paid.amount, 1000);
    assert_eq!(listed.price, 0);
}

#[test]
fn a_soulbound_service_is_never_resold() {
    let mut listed = service("advice", 100, true);
    for seller in [key(1), key(2), key(3), key(200)] {
        for price in [0, 1, 100, u64::MAX] {
            assert_eq!(
                listed.resell(&registry(5), seller, price, u64::MAX),
                Err(ErrorCode::SoulboundNotResellable)
            );
            assert_eq!(
                listed.quote_resale(&registry(5), seller, price, u64::MAX),
                Err(ErrorCode::SoulboundNotResellable)
            );
        }
    }
    assert_eq!(listed, service("advice", 100, true));
}

#[test]
fn a_resale_without_the_royalty_in_hand_changes_nothing() {
    let mut listed = service("advice", 100, false);
    assert_eq!(
        listed.resell(&registry(5), key(2), 1000, 49),
        Err(ErrorCode::InsufficientFunds)
    );
    assert_eq!(listed, service("advice", 100, false));
}

#[test]
fn a_resale_under_a_broken_rate_is_an_underflow() {
    let mut broken = registry(5);
    broken.royalty_percentage = 150;
    let mut listed = service("advice", 100, false);
    assert_eq!(
        listed.resell(&broken, key(2), 1000, u64::MAX),
        Err(ErrorCode::ArithmeticUnderflow)
    );
    assert_eq!(listed, service("advice", 100, false));
}

#[test]
fn listings_start_empty() {
    let listings = Listings::new();
    assert_eq!(listings.len(), 0);
    assert_eq!(listings.get(&"advice".to_string()), None);
}

#[test]
fn a_registered_service_is_found_under_its_name() {
    let mut listings = Listings::new();
    assert_eq!(listings.register(service("advice", 100, false)), Ok(()));
    assert_eq!(listings.register(service("repair", 200, true)), Ok(()));
    assert_eq!(listings.len(), 2);
    assert_eq!(listings.get(&"advice".to_string()), Some(&service("advice", 100, false)));
    assert_eq!(listings.get(&"repair".to_string()), Some(&service("repair", 200, true)));
    assert_eq!(listings.get(&"Advice".to_string()), None);
    assert_eq!(listings.get(&"".to_string()), None);
}

#[test]
fn a_name_is_registered_once() {
    let mut listings = Listings::new();
    assert_eq!(listings.register(service("advice", 100, false)), Ok(()));
    assert_eq!(
        listings.register(service("advice", 999, true)),
        Err(ErrorCode::DuplicateListing)
    );
    assert_eq!(listings.len(), 1);
    assert_eq!(listings.get(&"advice".to_string()), Some(&service("advice", 100, false)));
}

#[test]
fn listings_settle_a_purchase_by_name() {
    let mut listings = Listings::new();
    listings.register(service("advice", 100, false)).unwrap();
    listings.register(service("repair", 200, false)).unwrap();
    let paid = listings.purchase(&"repair".to_string(), key(3), 500).unwrap();
    assert_eq!(paid.amount, 200);
    let mut sold = service("repair", 200, false);
    sold.vendor = key(3);
    assert_eq!(listings.get(&"repair".to_string()), Some(&sold));
    assert_eq!(listings.get(&"advice".to_string()), Some(&service("advice", 100, false)));
    assert_eq!(listings.len(), 2);
}

#[test]
fn listings_refuse_what_is_not_listed() {
    let mut listings = Listings::new();
    listings.register(service("advice", 100, false)).unwrap();
    assert_eq!(
        listings.purchase(&"repair".to_string(), key(3), 500),
        Err(ErrorCode::ListingNotFound)
    );
    assert_eq!(
        listings.resell(&"repair".to_string(), &registry(5), key(3), 500, 500),
        Err(ErrorCode::ListingNotFound)
    );
    assert_eq!(listings.get(&"advice".to_string()), Some(&service("advice", 100, false)));
}

#[test]
fn listings_settle_a_resale_by_name() {
    let mut listings = Listings::new();
    listings.register(service("advice", 100, false)).unwrap();
    let paid = listings.resell(&"advice".to_string(), &registry(5), key(2), 1000, 50).unwrap();
    assert_eq!(paid.amount, 50);
    assert_eq!(paid.payee, Payee::Treasury);
    assert_eq!(listings.get(&"advice".to_string()), Some(&service("advice", 950, false)));
}
