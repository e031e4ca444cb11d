//! A verified state machine for a fixed-supply, pay-to-mint NFT collection.
//!
//! The collection is an explicit value, [`StellarLogos`], that every operation
//! takes. Each operation checks all of its conditions before it changes
//! anything, and reports what the host around it has to do next: the payment
//! to settle and the notification to publish. Storage, authentication of
//! signatures and the transfer of the payment asset belong to that host.

pub mod contract;
pub mod effects;
pub mod laws;
pub mod model;
pub mod types;

pub use contract::StellarLogos;
pub use effects::{Event, Payment, Receipt};
pub use types::{Address, CollectionInfo, Error, RoyaltyInfo, TokenInfo};
