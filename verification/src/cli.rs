//! The command-line surface of the tool, as plain data.
//!
//! Reading argv belongs to the binary around this library; these types are
//! the image of a parsed command line, and everything the library needs to
//! act on one.

use vstd::prelude::*;

verus! {

/// A parsed command line: the global display flag plus the chosen
/// subcommand.
#[derive(Debug)]
pub struct AuctionResultParser {
    /// Display results vertically instead of as a table.
    pub vertical: bool,
    /// The subcommand to run.
    pub command: AuctionResultCommands,
}

/// The subcommands the tool offers.
#[derive(Debug)]
pub enum AuctionResultCommands {
    /// Retrieve the details of the treasury with the given CUSIP number.
    Get {
        /// The CUSIP of the security.
        cusip: String,
    },
    /// Retrieve the latest auction results.
    Latest {
        /// The security type to filter by, if any.
        sectype: Option<String>,
        /// The number of days to look back, if limited.
        days: Option<usize>,
        /// A tenor filter such as `10y`, if any.
        tenor: Option<String>,
    },
    /// Assess the quality of an auction.
    Quality {
        /// The CUSIP of the security.
        cusip: String,
        /// The number of auctions to look back, if not the default.
        lookback: Option<usize>,
    },
}

} // verus!
