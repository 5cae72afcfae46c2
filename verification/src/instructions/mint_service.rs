use crate::state::escrow::{after_mint, Custody, EscrowVault};
use crate::state::market::{MarketState, MarketView};
use crate::state::pubkey::Pubkey;
use crate::utils::error::ErrorCode;
use vstd::prelude::*;

verus! {

/// The resale fee, in hundredths of a percent, written into the metadata of
/// every minted asset.
pub const SELLER_FEE_BASIS_POINTS: u16 = 5;

/// What minting a service asset takes.
#[derive(Clone, Copy, Debug, PartialEq, Eq)]
pub struct MintService {
    /// The vendor the asset is minted to.
    pub vendor: Pubkey,
    /// The identifier of the new asset.
    pub nft_mint: Pubkey,
}

/// The metadata that goes with a minted asset.
#[derive(Clone, Debug, PartialEq, Eq)]
pub struct TokenMetadata {
    pub name: String,
    pub symbol: String,
    pub uri: String,
    pub seller_fee_basis_points: u16,
    pub is_mutable: bool,
}

/// A `TokenMetadata` as a mathematical value.
pub struct TokenMetadataView {
    pub name: Seq<char>,
    pub symbol: Seq<char>,
    pub uri: Seq<char>,
    pub seller_fee_basis_points: u16,
    pub is_mutable: bool,
}

impl View for TokenMetadata {
    type V = TokenMetadataView;

    open spec fn view(&self) -> TokenMetadataView {
        TokenMetadataView {
            name: self.name@,
            symbol: self.symbol@,
            uri: self.uri@,
            seller_fee_basis_points: self.seller_fee_basis_points,
            is_mutable: self.is_mutable,
        }
    }
}

/// The metadata of an asset minted as `name` with its agreement at `uri`:
/// no symbol, the fixed resale fee, open to later change.
pub open spec fn metadata_of(name: Seq<char>, uri: Seq<char>) -> TokenMetadataView {
    TokenMetadataView {
        name,
        symbol: Seq::empty(),
        uri,
        seller_fee_basis_points: SELLER_FEE_BASIS_POINTS,
        is_mutable: true,
    }
}

impl TokenMetadata {
    /// The metadata of an asset minted as `name` with its agreement at
    /// `uri`.
    pub fn for_service(name: String, uri: String) -> (metadata: TokenMetadata)
        ensures
            metadata@ == metadata_of(name@, uri@),
    {
        TokenMetadata {
            name,
            symbol: String::new(),
            uri,
            seller_fee_basis_points: SELLER_FEE_BASIS_POINTS,
            is_mutable: true,
        }
    }
}

/// The marketplace after a fresh asset was minted to the vendor, and the
/// asset's metadata.
///
/// Refused with `DuplicateAsset` where the identifier is in use.
pub open spec fn outcome(
    before: MarketView,
    ctx: MintService,
    name: Seq<char>,
    uri: Seq<char>,
) -> Result<(MarketView, TokenMetadataView), ErrorCode> {
    match after_mint(before.custody, ctx.nft_mint, ctx.vendor) {
        Err(e) => Err(e),
        Ok(custody) => Ok((MarketView { custody, ..before }, metadata_of(name, uri))),
    }
}

/// Minting keeps the marketplace consistent.
pub proof fn lemma_outcome_wf(before: MarketView, ctx: MintService, name: Seq<char>, uri: Seq<char>)
    requires
        before.wf(),
    ensures
        outcome(before, ctx, name, uri) matches Ok(after) ==> after.0.wf(),
{
}

/// Mints the asset in `vault`.
fn mint(vault: &mut EscrowVault, ctx: &MintService, name: String, uri: String) -> (minted: Result<
    TokenMetadata,
    ErrorCode,
>)
    ensures
        match minted {
            Ok(metadata) => after_mint(old(vault)@, ctx.nft_mint, ctx.vendor) == Ok::<
                Map<Pubkey, Custody>,
                ErrorCode,
            >(final(vault)@) && metadata@ == metadata_of(name@, uri@),
            Err(e) => after_mint(old(vault)@, ctx.nft_mint, ctx.vendor) == Err::<
                Map<Pubkey, Custody>,
                ErrorCode,
            >(e) && final(vault)@ == old(vault)@,
        },
{
    vault.mint(ctx.nft_mint, ctx.vendor)?;
    Ok(TokenMetadata::for_service(name, uri))
}

/// Mints a fresh service asset to the vendor and hands back the metadata to
/// create for it. On an error nothing has changed.
pub fn handle(state: &mut MarketState, ctx: &MintService, name: String, uri: String) -> (minted:
    Result<TokenMetadata, ErrorCode>)
    ensures
        old(state)@.wf(),
        final(state)@.wf(),
        match minted {
            Ok(metadata) => outcome(old(state)@, *ctx, name@, uri@) == Ok::<
                (MarketView, TokenMetadataView),
                ErrorCode,
            >((final(state)@, metadata@)),
            Err(e) => outcome(old(state)@, *ctx, name@, uri@) == Err::<
                (MarketView, TokenMetadataView),
                ErrorCode,
            >(e) && final(state)@ == old(state)@,
        },
{
    let mut taken = MarketState::new();
    std::mem::swap(&mut taken, state);
    let (marketplace, listings, mut vault) = taken.into_parts();
    let minted = mint(&mut vault, ctx, name, uri);
    proof {
        lemma_outcome_wf(old(state)@, *ctx, name@, uri@);
    }
    *state = MarketState::from_parts(marketplace, listings, vault);
    minted
}

} // verus!
