use crate::state::marketplace::{split_of, Marketplace};
use crate::state::payment::{Payee, Payment};
use crate::state::pubkey::Pubkey;
use crate::utils::error::ErrorCode;
use vstd::prelude::*;

verus! {

/// A listed service: the offer to sell one asset at one price.
#[derive(Clone, Debug, PartialEq, Eq)]
pub struct Service {
    /// The current owner: the vendor that listed the service, then whoever
    /// bought it last.
    pub vendor: Pubkey,
    pub name: String,
    pub description: String,
    pub price: u64,
    /// The currency the price is in.
    pub mint: Pubkey,
    /// Can the service be resold: fixed when the service is listed.
    pub is_soulbound: bool,
    /// The asset on offer.
    pub nft_mint: Pubkey,
    pub bump: u8,
    pub escrow_bump: u8,
}

/// A `Service` as a mathematical value.
pub struct ServiceView {
    pub vendor: Pubkey,
    pub name: Seq<char>,
    pub description: Seq<char>,
    pub price: u64,
    pub mint: Pubkey,
    pub is_soulbound: bool,
    pub nft_mint: Pubkey,
    pub bump: u8,
    pub escrow_bump: u8,
}

impl View for Service {
    type V = ServiceView;

    open spec fn view(&self) -> ServiceView {
        ServiceView {
            vendor: self.vendor,
            name: self.name@,
            description: self.description@,
            price: self.price,
            mint: self.mint,
            is_soulbound: self.is_soulbound,
            nft_mint: self.nft_mint,
            bump: self.bump,
            escrow_bump: self.escrow_bump,
        }
    }
}

impl ServiceView {
    /// A purchase by `buyer`, whose payment account holds `funds`: the buyer
    /// becomes the owner and owes the price to the owner before.
    pub open spec fn purchase(self, buyer: Pubkey, funds: u64) -> Result<
        (ServiceView, Payment),
        ErrorCode,
    > {
        if funds < self.price {
            Err(ErrorCode::InsufficientFunds)
        } else {
            Ok(
                (
                    ServiceView { vendor: buyer, ..self },
                    Payment {
                        payer: buyer,
                        payee: Payee::Account(self.vendor),
                        mint: self.mint,
                        amount: self.price,
                    },
                ),
            )
        }
    }

    /// A resale at `new_price` by `seller`, whose payment account holds
    /// `funds`: the seller owes the royalty to the treasury, and the service
    /// is on offer again at what is left of the price.
    pub open spec fn resell(
        self,
        royalty_percentage: u8,
        seller: Pubkey,
        new_price: u64,
        funds: u64,
    ) -> Result<(ServiceView, Payment), ErrorCode> {
        if self.is_soulbound {
            Err(ErrorCode::SoulboundNotResellable)
        } else {
            match split_of(new_price, royalty_percentage) {
                Err(e) => Err(e),
                Ok(split) => if funds < split.royalty {
                    Err(ErrorCode::InsufficientFunds)
                } else {
                    Ok(
                        (
                            ServiceView { price: split.seller_amount, ..self },
                            Payment {
                                payer: seller,
                                payee: Payee::Treasury,
                                mint: self.mint,
                                amount: split.royalty,
                            },
                        ),
                    )
                },
            }
        }
    }
}

impl Service {
    /// What a purchase would ask the buyer to pay, with nothing changed.
    pub fn quote_purchase(&self, buyer: Pubkey, funds: u64) -> (quote: Result<Payment, ErrorCode>)
        ensures
            match quote {
                Ok(payment) => self@.purchase(buyer, funds) matches Ok(settled) && settled.1
                    == payment,
                Err(e) => self@.purchase(buyer, funds) == Err::<(ServiceView, Payment), ErrorCode>(
                    e,
                ),
            },
    {
        if funds < self.price {
            return Err(ErrorCode::InsufficientFunds);
        }
        Ok(
            Payment {
                payer: buyer,
                payee: Payee::Account(self.vendor),
                mint: self.mint,
                amount: self.price,
            },
        )
    }

    /// What a resale would ask the seller to pay, with nothing changed.
    pub fn quote_resale(
        &self,
        marketplace: &Marketplace,
        seller: Pubkey,
        new_price: u64,
        funds: u64,
    ) -> (quote: Result<Payment, ErrorCode>)
        ensures
            match quote {
                Ok(payment) => self@.resell(
                    marketplace.royalty_percentage,
                    seller,
                    new_price,
                    funds,
                ) matches Ok(settled) && settled.1 == payment,
                Err(e) => self@.resell(marketplace.royalty_percentage, seller, new_price, funds)
                    == Err::<(ServiceView, Payment), ErrorCode>(e),
            },
    {
        if self.is_soulbound {
            return Err(ErrorCode::SoulboundNotResellable);
        }
        let split = marketplace.royalty_split(new_price)?;
        if funds < split.royalty {
            return Err(ErrorCode::InsufficientFunds);
        }
        Ok(Payment { payer: seller, payee: Payee::Treasury, mint: self.mint, amount: split.royalty })
    }

    /// Settles a purchase on this record. On an error the record is as it
    /// was.
    pub fn purchase(&mut self, buyer: Pubkey, funds: u64) -> (paid: Result<Payment, ErrorCode>)
        ensures
            match paid {
                Ok(payment) => old(self)@.purchase(buyer, funds) == Ok::<
                    (ServiceView, Payment),
                    ErrorCode,
                >((final(self)@, payment)),
                Err(e) => old(self)@.purchase(buyer, funds) == Err::<
                    (ServiceView, Payment),
                    ErrorCode,
                >(e) && *final(self) == *old(self),
            },
    {
        let payment = self.quote_purchase(buyer, funds)?;
        self.vendor = buyer;
        Ok(payment)
    }

    /// Settles a resale on this record. On an error the record is as it was.
    pub fn resell(
        &mut self,
        marketplace: &Marketplace,
        seller: Pubkey,
        new_price: u64,
        funds: u64,
    ) -> (paid: Result<Payment, ErrorCode>)
        ensures
            match paid {
                Ok(payment) => old(self)@.resell(
                    marketplace.royalty_percentage,
                    seller,
                    new_price,
                    funds,
                ) == Ok::<(ServiceView, Payment), ErrorCode>((final(self)@, payment)),
                Err(e) => old(self)@.resell(
                    marketplace.royalty_percentage,
                    seller,
                    new_price,
                    funds,
                ) == Err::<(ServiceView, Payment), ErrorCode>(e) && *final(self) == *old(self),
            },
    {
        let payment = self.quote_resale(marketplace, seller, new_price, funds)?;
        self.price = new_price - payment.amount;
        Ok(payment)
    }
}

} // verus!
