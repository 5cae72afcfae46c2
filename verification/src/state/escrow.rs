use crate::state::pubkey::Pubkey;
use crate::utils::error::ErrorCode;
use crate::utils::table::{distinct_keys, lemma_absent, lemma_entry, lemma_push, lemma_update, to_map};
use vstd::prelude::*;

verus! {

/// Who has an asset in custody.
#[derive(Clone, Copy, Debug, PartialEq, Eq)]
pub enum Custody {
    /// The asset is with its owner.
    Held(Pubkey),
    /// The asset is locked in the vault, pending a sale.
    Escrowed,
}

/// The custody table after a fresh `asset` came into being under `owner`.
pub open spec fn after_mint(custody: Map<Pubkey, Custody>, asset: Pubkey, owner: Pubkey) -> Result<
    Map<Pubkey, Custody>,
    ErrorCode,
> {
    if custody.dom().contains(asset) {
        Err(ErrorCode::DuplicateAsset)
    } else {
        Ok(custody.insert(asset, Custody::Held(owner)))
    }
}

/// The custody table after `from` handed `asset` to the vault.
pub open spec fn after_lock(custody: Map<Pubkey, Custody>, asset: Pubkey, from: Pubkey) -> Result<
    Map<Pubkey, Custody>,
    ErrorCode,
> {
    if custody.dom().contains(asset) && custody[asset] == Custody::Escrowed {
        Err(ErrorCode::AlreadyEscrowed)
    } else if !custody.dom().contains(asset) || custody[asset] != Custody::Held(from) {
        Err(ErrorCode::NotOwner)
    } else {
        Ok(custody.insert(asset, Custody::Escrowed))
    }
}

/// The custody table after the vault handed `asset` to `to`.
pub open spec fn after_release(custody: Map<Pubkey, Custody>, asset: Pubkey, to: Pubkey) -> Result<
    Map<Pubkey, Custody>,
    ErrorCode,
> {
    if custody.dom().contains(asset) && custody[asset] == Custody::Escrowed {
        Ok(custody.insert(asset, Custody::Held(to)))
    } else {
        Err(ErrorCode::NotEscrowed)
    }
}

/// One asset and who has it.
struct Holding {
    asset: Pubkey,
    custody: Custody,
}

/// The holdings as a list of assets, each with its custody.
spec fn entries(holdings: Seq<Holding>) -> Seq<(Pubkey, Custody)> {
    holdings.map_values(|h: Holding| (h.asset, h.custody))
}

/// The escrow vault: the record of who has each asset in custody.
///
/// An asset is either with its owner or locked in the vault. Only a sale
/// takes an asset out of the vault again.
pub struct EscrowVault {
    holdings: Vec<Holding>,
}

impl View for EscrowVault {
    type V = Map<Pubkey, Custody>;

    closed spec fn view(&self) -> Map<Pubkey, Custody> {
        to_map(entries(self.holdings@))
    }
}

impl EscrowVault {
    #[verifier::type_invariant]
    spec fn inv(self) -> bool {
        distinct_keys(entries(self.holdings@))
    }

    /// A vault that knows of no asset.
    pub fn new() -> (vault: EscrowVault)
        ensures
            vault@ == Map::<Pubkey, Custody>::empty(),
    {
        let vault = EscrowVault { holdings: Vec::new() };
        assert(vault@ =~= Map::<Pubkey, Custody>::empty());
        vault
    }

    /// The place of the entry about `asset`, if there is one.
    fn find(&self, asset: &Pubkey) -> (found: Option<usize>)
        ensures
            match found {
                Some(i) => i < self.holdings.len() && self.holdings[i as int].asset == *asset,
                None => !self@.dom().contains(*asset),
            },
    {
        let mut i: usize = 0;
        while i < self.holdings.len()
            invariant
                i <= self.holdings.len(),
                forall|j: int| 0 <= j < i ==> self.holdings[j].asset != *asset,
            decreases self.holdings.len() - i,
        {
            if self.holdings[i].asset == *asset {
                return Some(i);
            }
            i += 1;
        }
        proof {
            lemma_absent(entries(self.holdings@), *asset);
        }
        None
    }

    /// Puts `custody` in place of what entry `i` holds.
    fn set_custody(&mut self, i: usize, custody: Custody)
        requires
            i < old(self).holdings.len(),
        ensures
            final(self)@ == old(self)@.insert(old(self).holdings[i as int].asset, custody),
    {
        proof {
            use_type_invariant(&*self);
        }
        let mut holdings: Vec<Holding> = Vec::new();
        std::mem::swap(&mut holdings, &mut self.holdings);
        proof {
            lemma_update(entries(holdings@), i as int, custody);
            assert(entries(
                holdings@.update(i as int, Holding { asset: holdings[i as int].asset, custody }),
            ) =~= entries(holdings@).update(i as int, (holdings[i as int].asset, custody)));
        }
        holdings[i].custody = custody;
        self.holdings = holdings;
    }

    /// Who has `asset`, if the vault knows of it.
    pub fn custody_of(&self, asset: &Pubkey) -> (custody: Option<Custody>)
        ensures
            custody == if self@.dom().contains(*asset) {
                Some(self@[*asset])
            } else {
                None
            },
    {
        proof {
            use_type_invariant(self);
        }
        match self.find(asset) {
            Some(i) => {
                proof {
                    lemma_entry(entries(self.holdings@), i as int);
                }
                Some(self.holdings[i].custody)
            },
            None => None,
        }
    }

    /// Records a fresh asset under `owner`. An identifier that is known
    /// already is refused.
    pub fn mint(&mut self, asset: Pubkey, owner: Pubkey) -> (done: Result<(), ErrorCode>)
        ensures
            match done {
                Ok(()) => after_mint(old(self)@, asset, owner) == Ok::<
                    Map<Pubkey, Custody>,
                    ErrorCode,
                >(final(self)@),
                Err(e) => after_mint(old(self)@, asset, owner) == Err::<
                    Map<Pubkey, Custody>,
                    ErrorCode,
                >(e) && final(self)@ == old(self)@,
            },
    {
        proof {
            use_type_invariant(&*self);
        }
        if self.custody_of(&asset).is_some() {
            return Err(ErrorCode::DuplicateAsset);
        }
        let mut holdings: Vec<Holding> = Vec::new();
        std::mem::swap(&mut holdings, &mut self.holdings);
        proof {
            lemma_push(entries(holdings@), asset, Custody::Held(owner));
            assert(entries(holdings@.push(Holding { asset, custody: Custody::Held(owner) }))
                =~= entries(holdings@).push((asset, Custody::Held(owner))));
        }
        holdings.push(Holding { asset, custody: Custody::Held(owner) });
        self.holdings = holdings;
        Ok(())
    }

    /// Takes `asset` from `from` into the vault. An asset already in the
    /// vault is refused, and so is one that `from` does not hold.
    pub fn lock(&mut self, asset: Pubkey, from: Pubkey) -> (done: Result<(), ErrorCode>)
        ensures
            match done {
                Ok(()) => after_lock(old(self)@, asset, from) == Ok::<
                    Map<Pubkey, Custody>,
                    ErrorCode,
                >(final(self)@),
                Err(e) => after_lock(old(self)@, asset, from) == Err::<
                    Map<Pubkey, Custody>,
                    ErrorCode,
                >(e) && final(self)@ == old(self)@,
            },
    {
        proof {
            use_type_invariant(&*self);
        }
        match self.find(&asset) {
            None => Err(ErrorCode::NotOwner),
            Some(i) => {
                proof {
                    lemma_entry(entries(self.holdings@), i as int);
                }
                match self.holdings[i].custody {
                    Custody::Escrowed => Err(ErrorCode::AlreadyEscrowed),
                    Custody::Held(owner) => {
                        if owner == from {
                            self.set_custody(i, Custody::Escrowed);
                            Ok(())
                        } else {
                            Err(ErrorCode::NotOwner)
                        }
                    },
                }
            },
        }
    }

    /// Hands `asset` out of the vault to `to`. Only a settled sale does
    /// this, so the function is not open to callers outside.
    pub(crate) fn release(&mut self, asset: Pubkey, to: Pubkey) -> (done: Result<(), ErrorCode>)
        ensures
            match done {
                Ok(()) => after_release(old(self)@, asset, to) == Ok::<
                    Map<Pubkey, Custody>,
                    ErrorCode,
                >(final(self)@),
                Err(e) => after_release(old(self)@, asset, to) == Err::<
                    Map<Pubkey, Custody>,
                    ErrorCode,
                >(e) && final(self)@ == old(self)@,
            },
    {
        proof {
            use_type_invariant(&*self);
        }
        match self.find(&asset) {
            None => Err(ErrorCode::NotEscrowed),
            Some(i) => {
                proof {
                    lemma_entry(entries(self.holdings@), i as int);
                }
                match self.holdings[i].custody {
                    Custody::Held(_) => Err(ErrorCode::NotEscrowed),
                    Custody::Escrowed => {
                        self.set_custody(i, Custody::Held(to));
                        Ok(())
                    },
                }
            },
        }
    }
}

} // verus!
