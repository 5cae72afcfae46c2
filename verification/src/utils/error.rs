use vstd::prelude::*;
use vstd::string::StringExecFns;

verus! {

/// Why the marketplace refused an operation.
///
/// Every refusal leaves the state the operation was called on as it was.
#[derive(Clone, Copy, Debug, PartialEq, Eq, Structural)]
pub enum ErrorCode {
    /// The listing is soulbound, or the token is frozen for good.
    SoulboundNotResellable,
    /// A listing of that name is already registered.
    DuplicateListing,
    /// The party handing an asset over does not hold it.
    NotOwner,
    /// The asset is already in the vault's custody.
    AlreadyEscrowed,
    /// The royalty exceeds the price it is taken from.
    ArithmeticUnderflow,
    /// A counter would pass the largest value it can hold.
    ArithmeticOverflow,
    /// The payer's balance is below the amount due.
    InsufficientFunds,
    /// The marketplace registry has not been created yet.
    Uninitialized,
    /// The marketplace registry was created before.
    AlreadyInitialized,
    /// The royalty rate is above a hundred percent.
    InvalidRoyalty,
    /// No listing of that name is registered.
    ListingNotFound,
    /// An asset with that identifier was minted before.
    DuplicateAsset,
    /// The listed asset is not in the vault's custody.
    NotEscrowed,
}

impl ErrorCode {
    /// The text that goes with each error.
    pub open spec fn message_of(self) -> Seq<char> {
        match self {
            ErrorCode::SoulboundNotResellable => "Soulbound NFTs cannot be resold"@,
            ErrorCode::DuplicateListing => "A service with this name is already listed"@,
            ErrorCode::NotOwner => "The asset is not held by the party handing it over"@,
            ErrorCode::AlreadyEscrowed => "The asset is already in escrow"@,
            ErrorCode::ArithmeticUnderflow => "The royalty exceeds the price"@,
            ErrorCode::ArithmeticOverflow => "The service counter is at its limit"@,
            ErrorCode::InsufficientFunds => "The payer's funds are below the amount due"@,
            ErrorCode::Uninitialized => "The marketplace is not initialized"@,
            ErrorCode::AlreadyInitialized => "The marketplace is already initialized"@,
            ErrorCode::InvalidRoyalty => "The royalty percentage is above 100"@,
            ErrorCode::ListingNotFound => "No service with this name is listed"@,
            ErrorCode::DuplicateAsset => "An asset with this identifier already exists"@,
            ErrorCode::NotEscrowed => "The asset is not in escrow"@,
        }
    }

    /// The error in words.
    pub fn message(&self) -> (text: String)
        ensures
            text@ == self.message_of(),
    {
        match self {
            ErrorCode::SoulboundNotResellable => String::from_str(
                "Soulbound NFTs cannot be resold",
            ),
            ErrorCode::DuplicateListing => String::from_str(
                "A service with this name is already listed",
            ),
            ErrorCode::NotOwner => String::from_str(
                "The asset is not held by the party handing it over",
            ),
            ErrorCode::AlreadyEscrowed => String::from_str("The asset is already in escrow"),
            ErrorCode::ArithmeticUnderflow => String::from_str("The royalty exceeds the price"),
            ErrorCode::ArithmeticOverflow => String::from_str(
                "The service counter is at its limit",
            ),
            ErrorCode::InsufficientFunds => String::from_str(
                "The payer's funds are below the amount due",
            ),
            ErrorCode::Uninitialized => String::from_str("The marketplace is not initialized"),
            ErrorCode::AlreadyInitialized => String::from_str(
                "The marketplace is already initialized",
            ),
            ErrorCode::InvalidRoyalty => String::from_str("The royalty percentage is above 100"),
            ErrorCode::ListingNotFound => String::from_str("No service with this name is listed"),
            ErrorCode::DuplicateAsset => String::from_str(
                "An asset with this identifier already exists",
            ),
            ErrorCode::NotEscrowed => String::from_str("The asset is not in escrow"),
        }
    }
}

} // verus!
