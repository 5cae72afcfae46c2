use crate::state::market::{MarketState, MarketView};
use crate::state::marketplace::{Marketplace, DEFAULT_ROYALTY_PERCENTAGE, MAX_ROYALTY_PERCENTAGE};
use crate::state::pubkey::Pubkey;
use crate::utils::error::ErrorCode;
use vstd::prelude::*;

verus! {

/// What creating the marketplace takes.
#[derive(Clone, Copy, Debug, PartialEq, Eq)]
pub struct InitializeMarketplace {
    /// The authority that will manage the marketplace.
    pub authority: Pubkey,
    /// The percentage of a resale price that goes to the marketplace.
    pub royalty_percentage: u8,
    /// The bump of the marketplace's signing authority.
    pub bump: u8,
}

impl InitializeMarketplace {
    /// A request at the default royalty rate.
    pub fn new(authority: Pubkey, bump: u8) -> (ctx: InitializeMarketplace)
        ensures
            ctx == (InitializeMarketplace {
                authority,
                royalty_percentage: DEFAULT_ROYALTY_PERCENTAGE,
                bump,
            }),
    {
        InitializeMarketplace { authority, royalty_percentage: DEFAULT_ROYALTY_PERCENTAGE, bump }
    }
}

/// The marketplace after its registry was created: once only, and with a
/// royalty rate of at most a hundred percent.
///
/// Refused, in this order: with `AlreadyInitialized` where the registry
/// exists; with `InvalidRoyalty` where the rate is above a hundred.
pub open spec fn outcome(before: MarketView, ctx: InitializeMarketplace) -> Result<
    MarketView,
    ErrorCode,
> {
    if before.marketplace is Some {
        Err(ErrorCode::AlreadyInitialized)
    } else if ctx.royalty_percentage > MAX_ROYALTY_PERCENTAGE {
        Err(ErrorCode::InvalidRoyalty)
    } else {
        Ok(
            MarketView {
                marketplace: Some(
                    Marketplace::initial(ctx.authority, ctx.royalty_percentage, ctx.bump),
                ),
                ..before
            },
        )
    }
}

/// Creating the registry keeps the marketplace consistent.
pub proof fn lemma_outcome_wf(before: MarketView, ctx: InitializeMarketplace)
    requires
        before.wf(),
    ensures
        outcome(before, ctx) matches Ok(after) ==> after.wf(),
{
}

/// Creates the registry in `slot`, which must be vacant.
fn create(slot: &mut Option<Marketplace>, ctx: &InitializeMarketplace) -> (done: Result<
    (),
    ErrorCode,
>)
    ensures
        *old(slot) is Some ==> done == Err::<(), ErrorCode>(ErrorCode::AlreadyInitialized),
        *old(slot) is None && ctx.royalty_percentage > MAX_ROYALTY_PERCENTAGE ==> done == Err::<
            (),
            ErrorCode,
        >(ErrorCode::InvalidRoyalty),
        *old(slot) is None && ctx.royalty_percentage <= MAX_ROYALTY_PERCENTAGE ==> done == Ok::<
            (),
            ErrorCode,
        >(()),
        done is Ok ==> *final(slot) == Some(
            Marketplace::initial(ctx.authority, ctx.royalty_percentage, ctx.bump),
        ),
        done is Err ==> *final(slot) == *old(slot),
{
    if slot.is_some() {
        return Err(ErrorCode::AlreadyInitialized);
    }
    let created = Marketplace::initialize(ctx.authority, ctx.royalty_percentage, ctx.bump)?;
    *slot = Some(created);
    Ok(())
}

/// Creates the marketplace's registry. On an error nothing has changed.
pub fn handle(state: &mut MarketState, ctx: &InitializeMarketplace) -> (done: Result<
    (),
    ErrorCode,
>)
    ensures
        old(state)@.wf(),
        final(state)@.wf(),
        match done {
            Ok(()) => outcome(old(state)@, *ctx) == Ok::<MarketView, ErrorCode>(final(state)@),
            Err(e) => outcome(old(state)@, *ctx) == Err::<MarketView, ErrorCode>(e)
                && final(state)@ == old(state)@,
        },
{
    let mut taken = MarketState::new();
    std::mem::swap(&mut taken, state);
    let (mut marketplace, listings, vault) = taken.into_parts();
    let done = create(&mut marketplace, ctx);
    proof {
        lemma_outcome_wf(old(state)@, *ctx);
    }
    *state = MarketState::from_parts(marketplace, listings, vault);
    done
}

} // verus!
