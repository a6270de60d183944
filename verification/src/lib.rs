//! Library for inspecting US Treasury auction results.
//!
//! The crate models auctioned securities, parses tenor descriptors such as
//! `"10-Y"` or `"2m"`, selects a window of historical peer auctions for a
//! target security, and computes a weighted quality score for the target
//! relative to its peers.  All rates, ratios and currency amounts are held as
//! fixed-point integers in millionths, so every computation here is exact
//! integer arithmetic with a single final rounding step.

pub mod cli;
pub mod decimal;
pub mod get;
pub mod quality;
pub mod latest;
pub mod tenor;
pub mod treasury;
pub mod util;

pub use get::Get;
pub use latest::Latest;
pub use treasury::SecurityType;
pub use util::validate_cusip;
