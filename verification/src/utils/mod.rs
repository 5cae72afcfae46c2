pub mod error;
pub(crate) mod table;

pub use error::ErrorCode;
