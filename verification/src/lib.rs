//! Textual swap offers: a compact, hand-typeable encoding of an atomic swap
//! between a Lightning payment and a ledger asset, and the strict parser that
//! turns such text back into a validated offer.

pub mod asset;
pub mod decimal;
pub mod error;
pub mod fields;
pub mod hex;
pub mod laws;
pub mod offer;
pub mod priced;
pub mod swap;
pub mod text;

pub use asset::{parse_opt_asset, AssetError, ContractId};
pub use error::{ErrorClass, ParseError};
pub use hex::{hex_str_to_vec, PaymentHash};
pub use offer::{Layout, Offer};
pub use priced::{Direction, PricedSwap, PricedSwapString, SwapType};
pub use swap::{Side, Swap, SwapString};
