//! The result of assessing one auction.

use vstd::prelude::*;

use crate::treasury::Treasury;

verus! {

/// What the quality assessment of one auction produced: the scored record,
/// the lookback window size used, the four peer means, and the final score.
/// The means are in micro units; the score is in milli units, i.e. the score
/// value carries three decimal places.
#[derive(Debug)]
pub struct AuctionQuality {
    /// The scored record.
    pub treasury: Treasury,
    /// The lookback window size the score was computed with.
    pub lookback_auctions: usize,
    /// Peer mean of the bid-to-cover ratio, in micro units.
    pub bid_to_cover_ratio_prev: u64,
    /// Peer mean of the primary-dealer percentage, in micro percentage
    /// points.
    pub primary_dealers_prev: u64,
    /// Peer mean of the direct-bidder percentage, in micro percentage points.
    pub direct_bidders_prev: u64,
    /// Peer mean of the indirect-bidder percentage, in micro percentage
    /// points.
    pub indirect_bidders_prev: u64,
    /// The quality score, in milli units.
    pub quality: i64,
}

impl AuctionQuality {
    /// The CUSIP of the assessed auction.
    pub fn cusip(&self) -> (r: String)
        ensures
            r@ == self.treasury@.cusip,
    {
        self.treasury.cusip_string()
    }

    /// The peer mean of the bid-to-cover ratio, in micro units.
    pub fn get_bid_to_cover_ratio(&self) -> (r: u64)
        ensures
            r == self.bid_to_cover_ratio_prev,
    {
        self.bid_to_cover_ratio_prev
    }

    /// The peer mean of the primary-dealer percentage, in micro percentage
    /// points.
    pub fn get_percentage_debt_purchased_by_dealers(&self) -> (r: u64)
        ensures
            r == self.primary_dealers_prev,
    {
        self.primary_dealers_prev
    }

    /// The peer mean of the direct-bidder percentage, in micro percentage
    /// points.
    pub fn get_percentage_debt_purchased_by_directs(&self) -> (r: u64)
        ensures
            r == self.direct_bidders_prev,
    {
        self.direct_bidders_prev
    }

    /// The peer mean of the indirect-bidder percentage, in micro percentage
    /// points.
    pub fn get_percentage_debt_purchased_by_indirects(&self) -> (r: u64)
        ensures
            r == self.indirect_bidders_prev,
    {
        self.indirect_bidders_prev
    }

    /// The assessed record.
    pub fn get_treasury(&self) -> (r: Treasury)
        ensures
            r == self.treasury,
    {
        self.treasury.clone()
    }

    /// The quality score, in milli units.
    pub fn get(&self) -> (r: i64)
        ensures
            r == self.quality,
    {
        self.quality
    }

    /// The number of auctions the quality was computed over.
    pub fn get_number_of_lookback_auctions(&self) -> (r: usize)
        ensures
            r == self.lookback_auctions,
    {
        self.lookback_auctions
    }
}

} // verus!
