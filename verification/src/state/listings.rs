use crate::state::marketplace::Marketplace;
use crate::state::payment::Payment;
use crate::state::pubkey::Pubkey;
use crate::state::service::{Service, ServiceView};
use crate::utils::error::ErrorCode;
use crate::utils::table::{distinct_keys, lemma_absent, lemma_entry, lemma_len, lemma_push, lemma_update, to_map};
use vstd::prelude::*;

verus! {

/// The listings after `service` was registered under its name.
pub open spec fn after_register(
    listings: Map<Seq<char>, ServiceView>,
    service: ServiceView,
) -> Result<Map<Seq<char>, ServiceView>, ErrorCode> {
    if listings.dom().contains(service.name) {
        Err(ErrorCode::DuplicateListing)
    } else {
        Ok(listings.insert(service.name, service))
    }
}

/// The listings after the one called `name` was bought, and the payment due.
pub open spec fn after_purchase(
    listings: Map<Seq<char>, ServiceView>,
    name: Seq<char>,
    buyer: Pubkey,
    funds: u64,
) -> Result<(Map<Seq<char>, ServiceView>, Payment), ErrorCode> {
    if !listings.dom().contains(name) {
        Err(ErrorCode::ListingNotFound)
    } else {
        match listings[name].purchase(buyer, funds) {
            Err(e) => Err(e),
            Ok(settled) => Ok((listings.insert(name, settled.0), settled.1)),
        }
    }
}

/// The listings after the one called `name` was put on offer again, and the
/// payment due.
pub open spec fn after_resale(
    listings: Map<Seq<char>, ServiceView>,
    name: Seq<char>,
    royalty_percentage: u8,
    seller: Pubkey,
    new_price: u64,
    funds: u64,
) -> Result<(Map<Seq<char>, ServiceView>, Payment), ErrorCode> {
    if !listings.dom().contains(name) {
        Err(ErrorCode::ListingNotFound)
    } else {
        match listings[name].resell(royalty_percentage, seller, new_price, funds) {
            Err(e) => Err(e),
            Ok(settled) => Ok((listings.insert(name, settled.0), settled.1)),
        }
    }
}

/// The services as a list of names, each with its record.
spec fn entries(services: Seq<Service>) -> Seq<(Seq<char>, ServiceView)> {
    services.map_values(|s: Service| (s.name@, s@))
}

/// The place of the service called `name`, if there is one.
fn find(services: &Vec<Service>, name: &String) -> (found: Option<usize>)
    ensures
        match found {
            Some(i) => i < services.len() && services[i as int].name@ == name@,
            None => !to_map(entries(services@)).dom().contains(name@),
        },
{
    let mut i: usize = 0;
    while i < services.len()
        invariant
            i <= services.len(),
            forall|j: int| 0 <= j < i ==> services[j].name@ != name@,
        decreases services.len() - i,
    {
        if services[i].name == *name {
            return Some(i);
        }
        i += 1;
    }
    proof {
        lemma_absent(entries(services@), name@);
    }
    None
}

/// The listing manager: every service ever listed, each under its own name.
///
/// A listing is never removed. A sale and a resale change its owner and its
/// price, and nothing else.
pub struct Listings {
    services: Vec<Service>,
}

impl View for Listings {
    type V = Map<Seq<char>, ServiceView>;

    closed spec fn view(&self) -> Map<Seq<char>, ServiceView> {
        to_map(entries(self.services@))
    }
}

impl Listings {
    #[verifier::type_invariant]
    spec fn inv(self) -> bool {
        distinct_keys(entries(self.services@))
    }

    /// No listing yet.
    pub fn new() -> (listings: Listings)
        ensures
            listings@ == Map::<Seq<char>, ServiceView>::empty(),
    {
        let listings = Listings { services: Vec::new() };
        assert(listings@ =~= Map::<Seq<char>, ServiceView>::empty());
        listings
    }

    /// How many services are listed.
    pub fn len(&self) -> (n: usize)
        ensures
            self@.dom().finite(),
            n == self@.dom().len(),
    {
        proof {
            use_type_invariant(self);
            lemma_len(entries(self.services@));
        }
        self.services.len()
    }

    /// The service called `name`, if one is listed.
    pub fn get(&self, name: &String) -> (found: Option<&Service>)
        ensures
            match found {
                Some(service) => self@.dom().contains(name@) && self@[name@] == service@
                    && service.name@ == name@,
                None => !self@.dom().contains(name@),
            },
    {
        proof {
            use_type_invariant(self);
        }
        match find(&self.services, name) {
            Some(i) => {
                proof {
                    lemma_entry(entries(self.services@), i as int);
                }
                Some(&self.services[i])
            },
            None => None,
        }
    }

    /// Registers `service` under its name. A name that is taken is refused.
    pub fn register(&mut self, service: Service) -> (done: Result<(), ErrorCode>)
        ensures
            match done {
                Ok(()) => after_register(old(self)@, service@) == Ok::<
                    Map<Seq<char>, ServiceView>,
                    ErrorCode,
                >(final(self)@),
                Err(e) => after_register(old(self)@, service@) == Err::<
                    Map<Seq<char>, ServiceView>,
                    ErrorCode,
                >(e) && final(self)@ == old(self)@,
            },
    {
        proof {
            use_type_invariant(&*self);
        }
        if self.get(&service.name).is_some() {
            return Err(ErrorCode::DuplicateListing);
        }
        let mut services: Vec<Service> = Vec::new();
        std::mem::swap(&mut services, &mut self.services);
        proof {
            lemma_push(entries(services@), service.name@, service@);
            assert(entries(services@.push(service)) =~= entries(services@).push(
                (service.name@, service@),
            ));
        }
        services.push(service);
        self.services = services;
        Ok(())
    }

    /// Settles a purchase of the service called `name`. On an error nothing
    /// has changed.
    pub fn purchase(&mut self, name: &String, buyer: Pubkey, funds: u64) -> (paid: Result<
        Payment,
        ErrorCode,
    >)
        ensures
            match paid {
                Ok(payment) => after_purchase(old(self)@, name@, buyer, funds) == Ok::<
                    (Map<Seq<char>, ServiceView>, Payment),
                    ErrorCode,
                >((final(self)@, payment)),
                Err(e) => after_purchase(old(self)@, name@, buyer, funds) == Err::<
                    (Map<Seq<char>, ServiceView>, Payment),
                    ErrorCode,
                >(e) && final(self)@ == old(self)@,
            },
    {
        proof {
            use_type_invariant(&*self);
        }
        let mut services: Vec<Service> = Vec::new();
        std::mem::swap(&mut services, &mut self.services);
        let paid = match find(&services, name) {
            None => Err(ErrorCode::ListingNotFound),
            Some(i) => {
                let ghost before = services@;
                proof {
                    lemma_entry(entries(before), i as int);
                }
                let paid = services[i].purchase(buyer, funds);
                proof {
                    lemma_update(entries(before), i as int, services[i as int]@);
                    assert(entries(services@) =~= entries(before).update(
                        i as int,
                        (name@, services[i as int]@),
                    ));
                }
                paid
            },
        };
        self.services = services;
        paid
    }

    /// Settles a resale of the service called `name`. On an error nothing
    /// has changed.
    pub fn resell(
        &mut self,
        name: &String,
        marketplace: &Marketplace,
        seller: Pubkey,
        new_price: u64,
        funds: u64,
    ) -> (paid: Result<Payment, ErrorCode>)
        ensures
            match paid {
                Ok(payment) => after_resale(
                    old(self)@,
                    name@,
                    marketplace.royalty_percentage,
                    seller,
                    new_price,
                    funds,
                ) == Ok::<(Map<Seq<char>, ServiceView>, Payment), ErrorCode>(
                    (final(self)@, payment),
                ),
                Err(e) => after_resale(
                    old(self)@,
                    name@,
                    marketplace.royalty_percentage,
                    seller,
                    new_price,
                    funds,
                ) == Err::<(Map<Seq<char>, ServiceView>, Payment), ErrorCode>(e) && final(self)@
                    == old(self)@,
            },
    {
        proof {
            use_type_invariant(&*self);
        }
        let mut services: Vec<Service> = Vec::new();
        std::mem::swap(&mut services, &mut self.services);
        let paid = match find(&services, name) {
            None => Err(ErrorCode::ListingNotFound),
            Some(i) => {
                let ghost before = services@;
                proof {
                    lemma_entry(entries(before), i as int);
                }
                let paid = services[i].resell(marketplace, seller, new_price, funds);
                proof {
                    lemma_update(entries(before), i as int, services[i as int]@);
                    assert(entries(services@) =~= entries(before).update(
                        i as int,
                        (name@, services[i as int]@),
                    ));
                }
                paid
            },
        };
        self.services = services;
        paid
    }
}

} // verus!
