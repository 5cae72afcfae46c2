use crate::state::escrow::{Custody, EscrowVault};
use crate::state::listings::Listings;
use crate::state::marketplace::Marketplace;
use crate::state::pubkey::Pubkey;
use crate::state::service::{Service, ServiceView};
use vstd::prelude::*;

verus! {

/// Where a listed service stands.
#[derive(Clone, Copy, Debug, PartialEq, Eq, Structural)]
pub enum ListingStatus {
    /// On offer: the asset is in the vault.
    Escrowed,
    /// Bought: the asset is with the listing's owner.
    Sold,
}

/// Everything the marketplace keeps, as a mathematical value: the registry
/// if it was created, the listings by name, and the custody of each asset.
pub struct MarketView {
    pub marketplace: Option<Marketplace>,
    pub services: Map<Seq<char>, ServiceView>,
    pub custody: Map<Pubkey, Custody>,
}

impl MarketView {
    /// A marketplace before anything happened.
    pub open spec fn empty() -> MarketView {
        MarketView { marketplace: None, services: Map::empty(), custody: Map::empty() }
    }

    /// Where the service called `name` stands, if it is listed.
    pub open spec fn status(self, name: Seq<char>) -> Option<ListingStatus> {
        if !self.services.dom().contains(name) {
            None
        } else if self.custody.dom().contains(self.services[name].nft_mint)
            && self.custody[self.services[name].nft_mint] == Custody::Escrowed {
            Some(ListingStatus::Escrowed)
        } else {
            Some(ListingStatus::Sold)
        }
    }

    /// What holds of the marketplace at all times:
    /// the royalty rate is a percentage; the registry counts the listings,
    /// and without a registry there is none; each listing stands under its
    /// own name, and the vault knows the asset it offers.
    pub open spec fn wf(self) -> bool {
        &&& self.services.dom().finite()
        &&& match self.marketplace {
            Some(m) => m.wf() && m.total_services == self.services.dom().len(),
            None => self.services.dom().len() == 0,
        }
        &&& forall|name: Seq<char>| #[trigger]
            self.services.dom().contains(name) ==> self.services[name].name == name
                && self.custody.dom().contains(self.services[name].nft_mint)
    }
}

/// The marketplace's state: the registry, the listing manager and the
/// escrow vault, kept consistent with each other.
pub struct MarketState {
    marketplace: Option<Marketplace>,
    listings: Listings,
    vault: EscrowVault,
}

impl View for MarketState {
    type V = MarketView;

    closed spec fn view(&self) -> MarketView {
        MarketView {
            marketplace: self.marketplace,
            services: self.listings@,
            custody: self.vault@,
        }
    }
}

impl MarketState {
    #[verifier::type_invariant]
    spec fn inv(self) -> bool {
        self@.wf()
    }

    /// A marketplace before anything happened.
    pub fn new() -> (state: MarketState)
        ensures
            state@ == MarketView::empty(),
            state@.wf(),
    {
        MarketState { marketplace: None, listings: Listings::new(), vault: EscrowVault::new() }
    }

    /// Takes the state apart into the registry, the listings and the vault.
    pub(crate) fn into_parts(self) -> (parts: (Option<Marketplace>, Listings, EscrowVault))
        ensures
            self@ == (MarketView { marketplace: parts.0, services: parts.1@, custody: parts.2@ }),
            self@.wf(),
    {
        proof {
            use_type_invariant(&self);
        }
        (self.marketplace, self.listings, self.vault)
    }

    /// Puts a state together from parts that are consistent.
    pub(crate) fn from_parts(
        marketplace: Option<Marketplace>,
        listings: Listings,
        vault: EscrowVault,
    ) -> (state: MarketState)
        requires
            (MarketView { marketplace, services: listings@, custody: vault@ }).wf(),
        ensures
            state@ == (MarketView { marketplace, services: listings@, custody: vault@ }),
    {
        MarketState { marketplace, listings, vault }
    }

    /// The registry, if it was created.
    pub fn marketplace(&self) -> (registry: Option<Marketplace>)
        ensures
            registry == self@.marketplace,
            self@.wf(),
    {
        proof {
            use_type_invariant(self);
        }
        self.marketplace
    }

    /// The service listed as `name`, if there is one.
    pub fn service(&self, name: &String) -> (found: Option<&Service>)
        ensures
            match found {
                Some(service) => self@.services.dom().contains(name@) && self@.services[name@]
                    == service@,
                None => !self@.services.dom().contains(name@),
            },
            self@.wf(),
    {
        proof {
            use_type_invariant(self);
        }
        self.listings.get(name)
    }

    /// Where the service listed as `name` stands, if there is one.
    pub fn status(&self, name: &String) -> (status: Option<ListingStatus>)
        ensures
            status == self@.status(name@),
            self@.wf(),
    {
        proof {
            use_type_invariant(self);
        }
        match self.listings.get(name) {
            None => None,
            Some(service) => match self.vault.custody_of(&service.nft_mint) {
                Some(Custody::Escrowed) => Some(ListingStatus::Escrowed),
                _ => Some(ListingStatus::Sold),
            },
        }
    }

    /// How many services are listed.
    pub fn service_count(&self) -> (n: usize)
        ensures
            n == self@.services.dom().len(),
            self@.wf(),
    {
        proof {
            use_type_invariant(self);
        }
        self.listings.len()
    }

    /// Who has `asset`, if the vault knows of it.
    pub fn custody_of(&self, asset: &Pubkey) -> (custody: Option<Custody>)
        ensures
            custody == if self@.custody.dom().contains(*asset) {
                Some(self@.custody[*asset])
            } else {
                None
            },
            self@.wf(),
    {
        proof {
            use_type_invariant(self);
        }
        self.vault.custody_of(asset)
    }
}

} // verus!
