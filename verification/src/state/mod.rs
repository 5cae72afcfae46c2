pub mod escrow;
pub mod listings;
pub mod market;
pub mod marketplace;
pub mod payment;
pub mod pubkey;
pub mod service;

pub use escrow::{Custody, EscrowVault};
pub use listings::Listings;
pub use market::{ListingStatus, MarketState, MarketView};
pub use marketplace::Marketplace;
pub use payment::{Payee, Payment};
pub use pubkey::Pubkey;
pub use service::Service;
