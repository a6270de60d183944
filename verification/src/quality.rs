//! The quality module: measures the quality of an auction against its
//! historical peers.
//!
//! The score of a target auction against a peer window of size `N` is the
//! weighted sum of the deviations of four metrics from their peer means,
//! rounded once to three decimal places:
//!
//! * bid-to-cover ratio, weight `+0.5`;
//! * primary-dealer percentage, weight `-0.4`;
//! * direct-bidder percentage, weight `-0.025`;
//! * indirect-bidder percentage, weight `-0.075`.
//!
//! Each mean divides the peer sum by the requested window size `N` as a
//! matter of policy; a window that the reopening filter left shorter than `N`
//! is rejected outright.  All arithmetic here is exact: metrics are
//! fixed-point integers in micro units, and the one rounding step happens at
//! the end, half away from zero.

mod auction_quality;

use vstd::prelude::*;

use crate::decimal::lemma_pct_micro_bound;
use crate::decimal::lemma_round_div_bound;
use crate::decimal::lemma_round_div_le;
use crate::decimal::pct_micro;
use crate::decimal::round_div;
use crate::decimal::round_div_signed;
use crate::decimal::round_div_u128;
use crate::decimal::MICRO;
use crate::decimal::PCT_SCALE;
use crate::decimal::RATIO_LIMIT;
use crate::latest::tenor_pred;
use crate::latest::Latest;
use crate::tenor::parse_spec;
use crate::tenor::Tenor;
use crate::treasury::error::AuctionResult;
use crate::treasury::error::AuctionResultError;
use crate::treasury::Treasuries;
use crate::treasury::Treasury;
use crate::treasury::TreasuryView;

pub use self::auction_quality::AuctionQuality;

verus! {

/// The default number of past auctions to consider.
pub const LAST_AUCTIONS: usize = 5;

/// Milli-weight of the bid-to-cover deviation.
pub const BID_TO_COVER_RATIO_WEIGHT_MILLI: u64 = 500;

/// Milli-weight of the primary-dealer percentage deviation (applied
/// negated).
pub const PRIMARY_DEALER_ACCEPTED_WEIGHT_MILLI: u64 = 400;

/// Milli-weight of the direct-bidder percentage deviation (applied negated).
pub const DIRECT_BIDDER_WEIGHT_MILLI: u64 = 25;

/// Milli-weight of the indirect-bidder percentage deviation (applied
/// negated).
pub const INDIRECT_BIDDER_WEIGHT_MILLI: u64 = 75;

/// Sum of the peers' bid-to-cover ratios, in micro units.
pub open spec fn sum_btc(s: Seq<Treasury>) -> int
    decreases s.len(),
{
    if s.len() == 0 {
        0
    } else {
        sum_btc(s.drop_last()) + s.last()@.bid_to_cover_ratio
    }
}

/// Sum of the peers' primary-dealer percentages, in micro percentage points.
pub open spec fn sum_dealer_pct(s: Seq<Treasury>) -> int
    decreases s.len(),
{
    if s.len() == 0 {
        0
    } else {
        sum_dealer_pct(s.drop_last()) + pct_micro(
            s.last()@.primary_dealer_accepted,
            s.last()@.competitive_accepted,
        )
    }
}

/// Sum of the peers' direct-bidder percentages, in micro percentage points.
pub open spec fn sum_direct_pct(s: Seq<Treasury>) -> int
    decreases s.len(),
{
    if s.len() == 0 {
        0
    } else {
        sum_direct_pct(s.drop_last()) + pct_micro(
            s.last()@.direct_bidder_accepted,
            s.last()@.competitive_accepted,
        )
    }
}

/// Sum of the peers' indirect-bidder percentages, in micro percentage
/// points.
pub open spec fn sum_indirect_pct(s: Seq<Treasury>) -> int
    decreases s.len(),
{
    if s.len() == 0 {
        0
    } else {
        sum_indirect_pct(s.drop_last()) + pct_micro(
            s.last()@.indirect_bidder_accepted,
            s.last()@.competitive_accepted,
        )
    }
}

/// Extending a prefix by one peer extends each sum by that peer's metric.
proof fn lemma_sums_push(s: Seq<Treasury>, i: int)
    requires
        0 <= i < s.len(),
    ensures
        sum_btc(s.take(i + 1)) == sum_btc(s.take(i)) + s[i]@.bid_to_cover_ratio,
        sum_dealer_pct(s.take(i + 1)) == sum_dealer_pct(s.take(i)) + pct_micro(
            s[i]@.primary_dealer_accepted,
            s[i]@.competitive_accepted,
        ),
        sum_direct_pct(s.take(i + 1)) == sum_direct_pct(s.take(i)) + pct_micro(
            s[i]@.direct_bidder_accepted,
            s[i]@.competitive_accepted,
        ),
        sum_indirect_pct(s.take(i + 1)) == sum_indirect_pct(s.take(i)) + pct_micro(
            s[i]@.indirect_bidder_accepted,
            s[i]@.competitive_accepted,
        ),
{
    assert(s.take(i + 1).drop_last() =~= s.take(i));
    assert(s.take(i + 1).last() == s[i]);
}

/// One thousand times the window size times the weighted deviation sum of
/// the target against the peer means: with the four peer sums `S_k` and the
/// target metrics `t_k`, the weighted deviation sum is
/// `sum_k sign_k * (W_k/1000) * (t_k - S_k/n)`, which equals this value
/// divided by `1000 * n`.
pub open spec fn score_numer(t: TreasuryView, peers: Seq<Treasury>, n: int) -> int {
    let bt = t.bid_to_cover_ratio;
    let dt = pct_micro(t.primary_dealer_accepted, t.competitive_accepted);
    let rt = pct_micro(t.direct_bidder_accepted, t.competitive_accepted);
    let it = pct_micro(t.indirect_bidder_accepted, t.competitive_accepted);
    (BID_TO_COVER_RATIO_WEIGHT_MILLI as int) * (n * bt - sum_btc(peers)) - (
    PRIMARY_DEALER_ACCEPTED_WEIGHT_MILLI as int) * (n * dt - sum_dealer_pct(peers)) - (
    DIRECT_BIDDER_WEIGHT_MILLI as int) * (n * rt - sum_direct_pct(peers)) - (
    INDIRECT_BIDDER_WEIGHT_MILLI as int) * (n * it - sum_indirect_pct(peers))
}

/// The quality score in milli units: the weighted deviation sum of the
/// target against the peer means over a window of size `n`, rounded to three
/// decimal places, half away from zero.
pub open spec fn quality_milli(t: TreasuryView, peers: Seq<Treasury>, n: int) -> int {
    round_div_signed(score_numer(t, peers, n), n * (MICRO as int))
}

/// Scores `target` against the peer window `peers`.  Fails when the window
/// holds fewer records than the requested size; otherwise the four peer
/// means each divide the peer sum by the requested size `window`, and the
/// score is the rounded weighted deviation sum.  Only the first `window`
/// peers take part.
#[verifier::loop_isolation(false)]
pub fn score(target: &Treasury, peers: &Treasuries, window: usize) -> (r: AuctionResult<
    AuctionQuality,
>)
    requires
        window >= 1,
    ensures
        peers@.len() < window ==> r == Err::<AuctionQuality, AuctionResultError>(
            AuctionResultError::OutOfBounds,
        ),
        peers@.len() >= window ==> (r matches Ok(aq) && aq.treasury == *target
            && aq.lookback_auctions == window && aq.bid_to_cover_ratio_prev == round_div(
            sum_btc(peers@.take(window as int)),
            window as int,
        ) && aq.primary_dealers_prev == round_div(
            sum_dealer_pct(peers@.take(window as int)),
            window as int,
        ) && aq.direct_bidders_prev == round_div(
            sum_direct_pct(peers@.take(window as int)),
            window as int,
        ) && aq.indirect_bidders_prev == round_div(
            sum_indirect_pct(peers@.take(window as int)),
            window as int,
        ) && aq.quality == quality_milli(target@, peers@.take(window as int), window as int)),
{
    if peers.len() < window {
        return Err(AuctionResultError::OutOfBounds);
    }

    // The four peer sums over the first `window` records.
    let mut s_btc: u128 = 0;
    let mut s_dlr: u128 = 0;
    let mut s_dir: u128 = 0;
    let mut s_ind: u128 = 0;
    proof {
        assert(peers@.take(0int) =~= Seq::<Treasury>::empty());
    }
    let mut i: usize = 0;
    while i < window
        invariant
            0 <= i <= window <= peers@.len(),
            s_btc == sum_btc(peers@.take(i as int)),
            s_dlr == sum_dealer_pct(peers@.take(i as int)),
            s_dir == sum_direct_pct(peers@.take(i as int)),
            s_ind == sum_indirect_pct(peers@.take(i as int)),
            s_btc <= i * (RATIO_LIMIT as int),
            s_dlr <= i * (PCT_SCALE as int),
            s_dir <= i * (PCT_SCALE as int),
            s_ind <= i * (PCT_SCALE as int),
        decreases window - i,
    {
        let p = &peers[i];
        proof {
            use_type_invariant(p);
            lemma_sums_push(peers@, i as int);
            lemma_pct_micro_bound(p@.primary_dealer_accepted, p@.competitive_accepted);
            lemma_pct_micro_bound(p@.direct_bidder_accepted, p@.competitive_accepted);
            lemma_pct_micro_bound(p@.indirect_bidder_accepted, p@.competitive_accepted);
        }
        s_btc = s_btc + (p.get_bid_to_cover_ratio() as u128);
        s_dlr = s_dlr + (p.get_percentage_debt_purchased_by_dealers() as u128);
        s_dir = s_dir + (p.get_percentage_debt_purchased_by_directs() as u128);
        s_ind = s_ind + (p.get_percentage_debt_purchased_by_indirects() as u128);
        i = i + 1;
    }
    let ghost used = peers@.take(window as int);

    // The target's own metrics.
    proof {
        use_type_invariant(target);
        lemma_pct_micro_bound(target@.primary_dealer_accepted, target@.competitive_accepted);
        lemma_pct_micro_bound(target@.direct_bidder_accepted, target@.competitive_accepted);
        lemma_pct_micro_bound(target@.indirect_bidder_accepted, target@.competitive_accepted);
    }
    let bt = target.get_bid_to_cover_ratio();
    let dt = target.get_percentage_debt_purchased_by_dealers();
    let rt = target.get_percentage_debt_purchased_by_directs();
    let it = target.get_percentage_debt_purchased_by_indirects();

    // The peer means, each divided by the requested window size.
    let w128: u128 = window as u128;
    proof {
        lemma_mean_bounds(s_btc as int, window as int, RATIO_LIMIT as int);
        lemma_mean_bounds(s_dlr as int, window as int, PCT_SCALE as int);
        lemma_mean_bounds(s_dir as int, window as int, PCT_SCALE as int);
        lemma_mean_bounds(s_ind as int, window as int, PCT_SCALE as int);
    }
    let m_btc = round_div_u128(s_btc, w128) as u64;
    let m_dlr = round_div_u128(s_dlr, w128) as u64;
    let m_dir = round_div_u128(s_dir, w128) as u64;
    let m_ind = round_div_u128(s_ind, w128) as u64;

    // The weighted deviation numerator, exact in 128-bit integers.
    let n128: i128 = window as i128;
    proof {
        lemma_term_bound(window as int, bt as int, s_btc as int, RATIO_LIMIT as int);
        lemma_term_bound(window as int, dt as int, s_dlr as int, PCT_SCALE as int);
        lemma_term_bound(window as int, rt as int, s_dir as int, PCT_SCALE as int);
        lemma_term_bound(window as int, it as int, s_ind as int, PCT_SCALE as int);
    }
    let t_btc: i128 = 500 * (n128 * (bt as i128) - (s_btc as i128));
    let t_dlr: i128 = 400 * (n128 * (dt as i128) - (s_dlr as i128));
    let t_dir: i128 = 25 * (n128 * (rt as i128) - (s_dir as i128));
    let t_ind: i128 = 75 * (n128 * (it as i128) - (s_ind as i128));
    let num: i128 = t_btc - t_dlr - t_dir - t_ind;
    proof {
        assert(num == score_numer(target@, used, window as int));
    }

    // Round once, half away from zero.
    let divisor: u128 = w128 * 1_000_000;
    let neg: bool = num < 0;
    let mag: u128 = if num >= 0 {
        num as u128
    } else {
        (-num) as u128
    };
    proof {
        let n = window as int;
        assert(-(n * 500_000_000_000_000int) <= t_btc <= n * 500_000_000_000_000int);
        assert(-(n * 40_000_000_000int) <= t_dlr <= n * 40_000_000_000int);
        assert(-(n * 2_500_000_000int) <= t_dir <= n * 2_500_000_000int);
        assert(-(n * 7_500_000_000int) <= t_ind <= n * 7_500_000_000int);
        assert(mag <= n * 500_050_000_000_000int);
        assert(divisor == n * (MICRO as int));
        assert(divisor * 500_050_000 == n * 500_050_000_000_000int);
        lemma_round_div_bound(mag as int, divisor as int);
        lemma_round_div_le(mag as int, divisor as int, 500_050_000);
    }
    let qmag = round_div_u128(mag, divisor);
    let q: i64 = if neg {
        -(qmag as i64)
    } else {
        qmag as i64
    };
    proof {
        assert(q == quality_milli(target@, used, window as int));
    }

    Ok(
        AuctionQuality {
            treasury: target.clone(),
            lookback_auctions: window,
            bid_to_cover_ratio_prev: m_btc,
            primary_dealers_prev: m_dlr,
            direct_bidders_prev: m_dir,
            indirect_bidders_prev: m_ind,
            quality: q,
        },
    )
}

/// First index of the record with the given CUSIP, or -1 if absent.
pub open spec fn find_cusip(s: Seq<Treasury>, c: Seq<char>) -> int
    decreases s.len(),
{
    if s.len() == 0 {
        -1
    } else if s[0]@.cusip == c {
        0
    } else if find_cusip(s.skip(1), c) == -1 {
        -1
    } else {
        1 + find_cusip(s.skip(1), c)
    }
}

/// `find_cusip` names the first match, and -1 means there is none.
pub proof fn lemma_find_cusip(s: Seq<Treasury>, c: Seq<char>)
    ensures
        -1 <= find_cusip(s, c) < s.len(),
        find_cusip(s, c) >= 0 ==> s[find_cusip(s, c)]@.cusip == c,
        forall|j: int| 0 <= j < find_cusip(s, c) ==> (#[trigger] s[j])@.cusip != c,
        find_cusip(s, c) == -1 ==> (forall|j: int|
            0 <= j < s.len() ==> (#[trigger] s[j])@.cusip != c),
    decreases s.len(),
{
    if s.len() == 0 {
    } else if s[0]@.cusip == c {
    } else {
        lemma_find_cusip(s.skip(1), c);
        assert forall|j: int| 0 <= j < find_cusip(s, c) implies (#[trigger] s[j])@.cusip != c by {
            if j >= 1 {
                assert(s.skip(1)[j - 1] == s[j]);
                assert(s.skip(1)[j - 1]@.cusip != c);
            }
        }
        if find_cusip(s, c) == -1 {
            assert forall|j: int| 0 <= j < s.len() implies (#[trigger] s[j])@.cusip != c by {
                if j >= 1 {
                    assert(s.skip(1)[j - 1] == s[j]);
                    assert(s.skip(1)[j - 1]@.cusip != c);
                }
            }
        }
    }
}

/// The new-issue filter: keeps the records that are not reopenings.
pub open spec fn new_issue_pred() -> spec_fn(Treasury) -> bool {
    |x: Treasury| !x@.reopening
}

/// What peer-window selection yields on a chronologically descending cohort:
/// too short a cohort fails, an absent target fails, a window that would run
/// off the end fails; otherwise the window is the records strictly after the
/// target, reopenings filtered out first, then at most `lookback` taken.
pub open spec fn window_spec(cohort: Seq<Treasury>, cusip: Seq<char>, lookback: int) -> Result<
    Seq<Treasury>,
    AuctionResultError,
> {
    if cohort.len() < lookback + 1 {
        Err(AuctionResultError::OutOfBounds)
    } else {
        let pos = find_cusip(cohort, cusip);
        if pos == -1 {
            Err(AuctionResultError::NoTreasury)
        } else if pos + lookback + 1 > cohort.len() {
            Err(AuctionResultError::OutOfBounds)
        } else {
            let f = cohort.skip(pos + 1).filter(new_issue_pred());
            Ok(
                if f.len() <= lookback {
                    f
                } else {
                    f.take(lookback)
                },
            )
        }
    }
}

/// Law: the peer window never contains a reopening record.
pub proof fn lemma_window_excludes_reopenings(
    cohort: Seq<Treasury>,
    cusip: Seq<char>,
    lookback: int,
)
    requires
        0 <= lookback,
    ensures
        window_spec(cohort, cusip, lookback) matches Ok(w) ==> (forall|i: int|
            0 <= i < w.len() ==> !(#[trigger] w[i])@.reopening),
{
    if let Ok(w) = window_spec(cohort, cusip, lookback) {
        let pos = find_cusip(cohort, cusip);
        let rest = cohort.skip(pos + 1);
        let f = rest.filter(new_issue_pred());
        assert(w == if f.len() <= lookback {
            f
        } else {
            f.take(lookback)
        });
        assert forall|i: int| 0 <= i < w.len() implies !(#[trigger] w[i])@.reopening by {
            if f.len() <= lookback {
                assert(w[i] == f[i]);
            } else {
                assert(w[i] == f.take(lookback)[i]);
                assert(f.take(lookback)[i] == f[i]);
            }
            rest.lemma_filter_pred(new_issue_pred(), i);
            assert(new_issue_pred()(f[i]));
        }
    }
}

/// Selects the peer window for the record with the given CUSIP out of a
/// chronologically descending cohort (newest first): the `lookback` records
/// strictly after (older than) the target, skipping reopenings, provided the
/// cohort extends far enough on both counts.
#[verifier::loop_isolation(false)]
pub fn select_peer_window(cohort: &Treasuries, cusip: &String, lookback: usize) -> (r:
    AuctionResult<Treasuries>)
    ensures
        ({
            match window_spec(cohort@, cusip@, lookback as int) {
                Ok(w) => r matches Ok(v) && v@ == w,
                Err(e) => r == Err::<Treasuries, AuctionResultError>(e),
            }
        }),
{
    proof {
        lemma_find_cusip(cohort@, cusip@);
    }
    let n = cohort.len();
    if n <= lookback {
        return Err(AuctionResultError::OutOfBounds);
    }

    // Locate the target.
    let ghost fpos = find_cusip(cohort@, cusip@);
    let mut pos: usize = 0;
    let mut found: bool = false;
    let mut i: usize = 0;
    while i < n && !found
        invariant
            0 <= i <= n,
            !found ==> pos == 0 && (forall|j: int|
                0 <= j < i ==> (#[trigger] cohort@[j])@.cusip != cusip@),
            found ==> pos < n && i == pos + 1 && cohort@[pos as int]@.cusip == cusip@ && (forall|
                j: int,
            |
                0 <= j < pos ==> (#[trigger] cohort@[j])@.cusip != cusip@),
        decreases n - i,
    {
        let x = &cohort[i];
        if x.has_cusip(cusip) {
            pos = i;
            found = true;
        }
        i = i + 1;
    }
    if !found {
        proof {
            assert(fpos == -1);
        }
        return Err(AuctionResultError::NoTreasury);
    }
    proof {
        assert(pos == fpos);
    }
    if pos >= n - lookback {
        proof {
            assert(pos + lookback + 1 > n);
        }
        return Err(AuctionResultError::OutOfBounds);
    }

    // Collect the window: skip reopenings, stop at `lookback` records.
    let ghost pred = new_issue_pred();
    let mut w: Treasuries = Vec::new();
    let mut k: usize = pos + 1;
    proof {
        reveal(Seq::filter);
        assert(cohort@.subrange(pos as int + 1, pos as int + 1).filter(pred) =~= Seq::<
            Treasury,
        >::empty());
    }
    while k < n && w.len() < lookback
        invariant
            pos + 1 <= k <= n,
            w@ == cohort@.subrange(pos as int + 1, k as int).filter(pred),
            w@.len() <= lookback,
        decreases n - k,
    {
        let x = &cohort[k];
        proof {
            reveal(Seq::filter);
            let pre = cohort@.subrange(pos as int + 1, k as int);
            let nxt = cohort@.subrange(pos as int + 1, k as int + 1);
            assert(nxt.drop_last() =~= pre);
            assert(nxt.last() == cohort@[k as int]);
            assert(pred(cohort@[k as int]) == !cohort@[k as int]@.reopening);
        }
        if !x.is_reopening() {
            w.push(x.clone());
        }
        k = k + 1;
    }
    proof {
        let rest = cohort@.skip(pos as int + 1);
        let f = rest.filter(pred);
        let taken = cohort@.subrange(pos as int + 1, k as int);
        let beyond = cohort@.subrange(k as int, n as int);
        assert(rest =~= taken + beyond);
        Seq::<Treasury>::filter_distributes_over_add(taken, beyond, pred);
        if k == n {
            assert(beyond =~= Seq::<Treasury>::empty());
            assert(beyond.filter(pred) =~= Seq::<Treasury>::empty()) by {
                reveal(Seq::filter);
            }
            assert(f =~= w@);
            assert(f.len() <= lookback);
        } else {
            assert(w@.len() == lookback);
            rest.lemma_filter_len(pred);
            beyond.lemma_filter_len(pred);
            assert(f == w@ + beyond.filter(pred));
            assert(f.len() >= lookback);
            if f.len() <= lookback {
                assert(beyond.filter(pred).len() == 0);
                assert(f =~= w@);
            } else {
                assert(f.take(lookback as int) =~= w@);
            }
        }
    }
    Ok(w)
}

/// The command that assesses the quality of one auction: fetch the security
/// by CUSIP, fetch its historical cohort of the same type and tenor, select
/// the peer window, and score.  The fetches themselves are the caller's
/// business; [`QualityCommand::cohort_request`] says what to fetch and
/// [`QualityCommand::calculate_from`] evaluates the results.
pub struct QualityCommand {
    /// The CUSIP of the auction to assess.
    pub cusip: String,
    /// How many past auctions to compare against.
    pub lookback_auctions: usize,
    /// The service host handed on to the fetch descriptors.
    pub host: String,
}

impl QualityCommand {
    /// Creates the command; a zero lookback count falls back to the default
    /// of [`LAST_AUCTIONS`].
    pub fn new(cusip: &str, lookback_auctions: usize) -> (r: QualityCommand)
        ensures
            r.cusip@ == cusip@,
            r.lookback_auctions == if lookback_auctions == 0 {
                LAST_AUCTIONS as int
            } else {
                lookback_auctions as int
            },
            r.host@ == Seq::<char>::empty(),
    {
        QualityCommand {
            cusip: cusip.to_owned(),
            lookback_auctions: if lookback_auctions == 0 {
                LAST_AUCTIONS
            } else {
                lookback_auctions
            },
            host: String::new(),
        }
    }

    /// The CUSIP of the requested auction.
    pub fn cusip(&self) -> (r: &str)
        ensures
            r@ == self.cusip@,
    {
        self.cusip.as_str()
    }

    /// The number of auctions the quality is calculated over.
    pub fn get_number_of_lookback_auctions(&self) -> (r: usize)
        ensures
            r == self.lookback_auctions,
    {
        self.lookback_auctions
    }

    /// Sets the service host.
    pub fn set_host(&mut self, host: &str)
        ensures
            final(self).host@ == host@,
            final(self).cusip == old(self).cusip,
            final(self).lookback_auctions == old(self).lookback_auctions,
    {
        self.host = host.to_owned();
    }

    /// The cohort to fetch for the target security: same type, same tenor
    /// (parsed from the target's term), no day limit.  Fails when the fetch
    /// for the CUSIP came back empty or the target's term has no tenor.
    pub fn cohort_request(&self, fetched: &Treasuries) -> (r: AuctionResult<Latest>)
        ensures
            fetched@.len() == 0 ==> r == Err::<Latest, AuctionResultError>(
                AuctionResultError::NoTreasury,
            ),
            fetched@.len() > 0 ==> ({
                match parse_spec(fetched@[0]@.term) {
                    None => r == Err::<Latest, AuctionResultError>(AuctionResultError::ParseTenor),
                    Some(t) => (r matches Ok(l) && l.security_type == fetched@[0]@.security_type
                        && l.days == 0 && l.tenor == t && l.host@ == self.host@),
                }
            }),
    {
        if fetched.len() == 0 {
            return Err(AuctionResultError::NoTreasury);
        }
        let target = &fetched[0];
        let tenor = match Tenor::parse(target.get_term()) {
            Ok(t) => t,
            Err(e) => {
                return Err(e);
            },
        };
        let mut latest = Latest::new(target.get_security_type(), 0, tenor);
        latest.set_host(self.host.clone());
        Ok(latest)
    }

    /// Assesses the quality of the target auction from the two fetch
    /// results: the (singleton) list for the CUSIP and the raw cohort of
    /// same-type auctions, chronologically descending (newest first).  The
    /// cohort is narrowed to the target's tenor, the peer window selected,
    /// and the target scored against it.
    pub fn calculate_from(&self, fetched: &Treasuries, cohort: &Treasuries) -> (r: AuctionResult<
        AuctionQuality,
    >)
        requires
            self.lookback_auctions >= 1,
        ensures
            ({
                let lb = self.lookback_auctions as int;
                if fetched@.len() == 0 {
                    r == Err::<AuctionQuality, AuctionResultError>(AuctionResultError::NoTreasury)
                } else {
                    let target = fetched@[0];
                    match parse_spec(target@.term) {
                        None => r == Err::<AuctionQuality, AuctionResultError>(
                            AuctionResultError::ParseTenor,
                        ),
                        Some(ten) => {
                            let coh = cohort@.filter(tenor_pred(ten));
                            match window_spec(coh, target@.cusip, lb) {
                                Err(e) => r == Err::<AuctionQuality, AuctionResultError>(e),
                                Ok(w) => {
                                    if w.len() < lb {
                                        r == Err::<AuctionQuality, AuctionResultError>(
                                            AuctionResultError::OutOfBounds,
                                        )
                                    } else {
                                        (r matches Ok(aq) && aq.treasury == target
                                            && aq.lookback_auctions == lb
                                            && aq.bid_to_cover_ratio_prev == round_div(
                                            sum_btc(w.take(lb)),
                                            lb,
                                        ) && aq.primary_dealers_prev == round_div(
                                            sum_dealer_pct(w.take(lb)),
                                            lb,
                                        ) && aq.direct_bidders_prev == round_div(
                                            sum_direct_pct(w.take(lb)),
                                            lb,
                                        ) && aq.indirect_bidders_prev == round_div(
                                            sum_indirect_pct(w.take(lb)),
                                            lb,
                                        ) && aq.quality == quality_milli(target@, w.take(lb), lb))
                                    }
                                },
                            }
                        },
                    }
                }
            }),
    {
        if fetched.len() == 0 {
            return Err(AuctionResultError::NoTreasury);
        }
        let target = &fetched[0];
        let tenor = match Tenor::parse(target.get_term()) {
            Ok(t) => t,
            Err(e) => {
                return Err(e);
            },
        };
        let filtered = crate::latest::filter_by_tenor(cohort, &tenor);
        let key = target.cusip_string();
        let window = match select_peer_window(&filtered, &key, self.lookback_auctions) {
            Ok(w) => w,
            Err(e) => {
                return Err(e);
            },
        };
        score(target, &window, self.lookback_auctions)
    }
}

/// A mean of values below a limit stays at or below the limit.
proof fn lemma_mean_bounds(s: int, n: int, limit: int)
    requires
        0 <= s,
        1 <= n,
        0 <= limit,
        s <= n * limit,
    ensures
        0 <= round_div(s, n) <= limit,
{
    lemma_round_div_bound(s, n);
    lemma_round_div_le(s, n, limit);
}

/// The deviation of a bounded metric from a bounded sum is bounded.
proof fn lemma_term_bound(n: int, t: int, s: int, limit: int)
    requires
        1 <= n,
        0 <= t <= limit,
        0 <= s <= n * limit,
    ensures
        -(n * limit) <= n * t - s <= n * limit,
{
    assert(0 <= n * t <= n * limit) by (nonlinear_arith)
        requires
            1 <= n,
            0 <= t <= limit,
    ;
}

} // verus!
