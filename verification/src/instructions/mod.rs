pub mod buy_service;
pub mod initialize_marketplace;
pub mod list_service;
pub mod mint_service;
pub mod resell_service;

pub use buy_service::BuyService;
pub use initialize_marketplace::InitializeMarketplace;
pub use list_service::ListService;
pub use mint_service::{MintService, TokenMetadata};
pub use resell_service::ResellService;
