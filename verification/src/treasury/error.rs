//! The error type used throughout this library.

use vstd::prelude::*;

verus! {

/// Everything that can go wrong while fetching or evaluating auction results.
#[derive(Debug, PartialEq, Eq)]
pub enum AuctionResultError {
    /// The transport failed or the service answered with an error status; the
    /// payload describes the failure.
    Request(String),
    /// The supplied identifier fails CUSIP shape or checksum validation.
    ParseCusip,
    /// A term string could not be parsed into a tenor.
    ParseTenor,
    /// A fetch returned no record where at least one was required.
    NoTreasury,
    /// Too little auction history to fill the requested lookback window.
    OutOfBounds,
}

impl Clone for AuctionResultError {
    fn clone(&self) -> (r: Self)
        ensures
            r == *self,
    {
        match self {
            AuctionResultError::Request(msg) => AuctionResultError::Request(msg.clone()),
            AuctionResultError::ParseCusip => AuctionResultError::ParseCusip,
            AuctionResultError::ParseTenor => AuctionResultError::ParseTenor,
            AuctionResultError::NoTreasury => AuctionResultError::NoTreasury,
            AuctionResultError::OutOfBounds => AuctionResultError::OutOfBounds,
        }
    }
}

/// Convenience alias for results carrying this library's error.
pub type AuctionResult<T> = Result<T, AuctionResultError>;

} // verus!
