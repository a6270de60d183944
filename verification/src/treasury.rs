//! The treasury security record.
//!
//! A [`Treasury`] is one auctioned security as the upstream service reports
//! it.  All rates, ratios and currency amounts are fixed-point integers in
//! micro units (see [`crate::decimal`]); dates are plain calendar fields.
//! Records are immutable once built, and every record observes the machine
//! bounds of [`Treasury::bounded`], which keep the percentage and scoring
//! arithmetic free of overflow.

pub mod error;
pub mod treasury_type;

use vstd::prelude::*;

use crate::decimal::lemma_round_div_bound;
use crate::decimal::pct_micro;
use crate::decimal::round_div_u128;
use crate::decimal::AMOUNT_LIMIT;
use crate::decimal::PCT_SCALE;
use crate::decimal::RATIO_LIMIT;
use crate::tenor::spec_render;
use crate::tenor::Tenor;

pub use error::AuctionResult;
pub use error::AuctionResultError;
pub use treasury_type::SecurityType;

verus! {

/// A calendar timestamp, held as plain fields; formatting for display is the
/// caller's business.
#[derive(Debug, PartialEq, Eq, Structural, Default, Clone, Copy)]
pub struct DateStamp {
    pub year: i32,
    pub month: u8,
    pub day: u8,
    pub hour: u8,
    pub minute: u8,
    pub second: u8,
}

/// The mathematical image of a treasury record: character sequences for the
/// text fields and unbounded integers for the fixed-point quantities.
pub struct TreasuryView {
    pub cusip: Seq<char>,
    pub issue_date: DateStamp,
    pub security_type: SecurityType,
    pub security_term: Seq<char>,
    pub maturity_date: DateStamp,
    pub interest_rate: int,
    pub bid_to_cover_ratio: int,
    pub competitive_accepted: int,
    pub direct_bidder_accepted: int,
    pub high_discount_rate: int,
    pub high_investment_rate: int,
    pub high_yield: int,
    pub indirect_bidder_accepted: int,
    pub original_security_term: Seq<char>,
    pub primary_dealer_accepted: int,
    pub reopening: bool,
    pub term: Seq<char>,
    pub total_accepted: int,
}

/// Plain carrier for the fields of a record, used to build one.
pub struct TreasuryData {
    pub cusip: String,
    pub issue_date: DateStamp,
    pub security_type: SecurityType,
    pub security_term: String,
    pub maturity_date: DateStamp,
    pub interest_rate: u64,
    pub bid_to_cover_ratio: u64,
    pub competitive_accepted: u64,
    pub direct_bidder_accepted: u64,
    pub high_discount_rate: u64,
    pub high_investment_rate: u64,
    pub high_yield: u64,
    pub indirect_bidder_accepted: u64,
    pub original_security_term: String,
    pub primary_dealer_accepted: u64,
    pub reopening: bool,
    pub term: String,
    pub total_accepted: u64,
}

/// The view a [`TreasuryData`] would give its record.
pub open spec fn data_view(d: TreasuryData) -> TreasuryView {
    TreasuryView {
        cusip: d.cusip@,
        issue_date: d.issue_date,
        security_type: d.security_type,
        security_term: d.security_term@,
        maturity_date: d.maturity_date,
        interest_rate: d.interest_rate as int,
        bid_to_cover_ratio: d.bid_to_cover_ratio as int,
        competitive_accepted: d.competitive_accepted as int,
        direct_bidder_accepted: d.direct_bidder_accepted as int,
        high_discount_rate: d.high_discount_rate as int,
        high_investment_rate: d.high_investment_rate as int,
        high_yield: d.high_yield as int,
        indirect_bidder_accepted: d.indirect_bidder_accepted as int,
        original_security_term: d.original_security_term@,
        primary_dealer_accepted: d.primary_dealer_accepted as int,
        reopening: d.reopening,
        term: d.term@,
        total_accepted: d.total_accepted as int,
    }
}

/// One auctioned treasury security.
#[derive(Debug)]
pub struct Treasury {
    cusip: String,
    issue_date: DateStamp,
    security_type: SecurityType,
    security_term: String,
    maturity_date: DateStamp,
    interest_rate: u64,
    bid_to_cover_ratio: u64,
    competitive_accepted: u64,
    direct_bidder_accepted: u64,
    high_discount_rate: u64,
    high_investment_rate: u64,
    high_yield: u64,
    indirect_bidder_accepted: u64,
    original_security_term: String,
    primary_dealer_accepted: u64,
    reopening: bool,
    term: String,
    total_accepted: u64,
}

impl View for Treasury {
    type V = TreasuryView;

    closed spec fn view(&self) -> TreasuryView {
        TreasuryView {
            cusip: self.cusip@,
            issue_date: self.issue_date,
            security_type: self.security_type,
            security_term: self.security_term@,
            maturity_date: self.maturity_date,
            interest_rate: self.interest_rate as int,
            bid_to_cover_ratio: self.bid_to_cover_ratio as int,
            competitive_accepted: self.competitive_accepted as int,
            direct_bidder_accepted: self.direct_bidder_accepted as int,
            high_discount_rate: self.high_discount_rate as int,
            high_investment_rate: self.high_investment_rate as int,
            high_yield: self.high_yield as int,
            indirect_bidder_accepted: self.indirect_bidder_accepted as int,
            original_security_term: self.original_security_term@,
            primary_dealer_accepted: self.primary_dealer_accepted as int,
            reopening: self.reopening,
            term: self.term@,
            total_accepted: self.total_accepted as int,
        }
    }
}

/// Whether a record matches a tenor filter: the empty tenor matches
/// everything, any other tenor matches records whose `term`, `security_term`
/// or `original_security_term` equals the tenor's rendering.
pub open spec fn matches_tenor(v: TreasuryView, t: Tenor) -> bool {
    (t.security == 0 && t.unit is Unspecified) || v.term == spec_render(t) || v.security_term
        == spec_render(t) || v.original_security_term == spec_render(t)
}

impl Treasury {
    /// The machine bounds every record observes: rates and ratios up to
    /// [`RATIO_LIMIT`], amounts up to [`AMOUNT_LIMIT`], and each bidder
    /// class's accepted amount within the competitive total.
    pub open spec fn bounded(v: TreasuryView) -> bool {
        0 <= v.interest_rate <= RATIO_LIMIT && 0 <= v.bid_to_cover_ratio <= RATIO_LIMIT && 0
            <= v.high_discount_rate <= RATIO_LIMIT && 0 <= v.high_investment_rate <= RATIO_LIMIT
            && 0 <= v.high_yield <= RATIO_LIMIT && 0 <= v.competitive_accepted <= AMOUNT_LIMIT && 0
            <= v.total_accepted <= AMOUNT_LIMIT && 0 <= v.primary_dealer_accepted
            <= v.competitive_accepted && 0 <= v.direct_bidder_accepted <= v.competitive_accepted
            && 0 <= v.indirect_bidder_accepted <= v.competitive_accepted
    }

    /// Type invariant: the bounds hold of every record.
    #[verifier::type_invariant]
    pub open spec fn wf(self) -> bool {
        Treasury::bounded(self@)
    }

    /// The empty record: empty text, zero quantities, unspecified type.
    pub fn new() -> (r: Treasury)
        ensures
            r@ == empty_record(),
    {
        proof {
            reveal_strlit("");
        }
        Treasury {
            cusip: "".to_owned(),
            issue_date: DateStamp { year: 0, month: 0, day: 0, hour: 0, minute: 0, second: 0 },
            security_type: SecurityType::Null,
            security_term: "".to_owned(),
            maturity_date: DateStamp { year: 0, month: 0, day: 0, hour: 0, minute: 0, second: 0 },
            interest_rate: 0,
            bid_to_cover_ratio: 0,
            competitive_accepted: 0,
            direct_bidder_accepted: 0,
            high_discount_rate: 0,
            high_investment_rate: 0,
            high_yield: 0,
            indirect_bidder_accepted: 0,
            original_security_term: "".to_owned(),
            primary_dealer_accepted: 0,
            reopening: false,
            term: "".to_owned(),
            total_accepted: 0,
        }
    }

    /// Builds a record from its fields; fields outside the machine bounds are
    /// rejected.
    pub fn from_parts(d: TreasuryData) -> (r: Option<Treasury>)
        ensures
            ({
                if Treasury::bounded(data_view(d)) {
                    r matches Some(t) && t@ == data_view(d)
                } else {
                    r is None
                }
            }),
    {
        let ok = d.interest_rate <= RATIO_LIMIT && d.bid_to_cover_ratio <= RATIO_LIMIT
            && d.high_discount_rate <= RATIO_LIMIT && d.high_investment_rate <= RATIO_LIMIT
            && d.high_yield <= RATIO_LIMIT && d.competitive_accepted <= AMOUNT_LIMIT
            && d.total_accepted <= AMOUNT_LIMIT && d.primary_dealer_accepted
            <= d.competitive_accepted && d.direct_bidder_accepted <= d.competitive_accepted
            && d.indirect_bidder_accepted <= d.competitive_accepted;
        if ok {
            Some(
                Treasury {
                    cusip: d.cusip,
                    issue_date: d.issue_date,
                    security_type: d.security_type,
                    security_term: d.security_term,
                    maturity_date: d.maturity_date,
                    interest_rate: d.interest_rate,
                    bid_to_cover_ratio: d.bid_to_cover_ratio,
                    competitive_accepted: d.competitive_accepted,
                    direct_bidder_accepted: d.direct_bidder_accepted,
                    high_discount_rate: d.high_discount_rate,
                    high_investment_rate: d.high_investment_rate,
                    high_yield: d.high_yield,
                    indirect_bidder_accepted: d.indirect_bidder_accepted,
                    original_security_term: d.original_security_term,
                    primary_dealer_accepted: d.primary_dealer_accepted,
                    reopening: d.reopening,
                    term: d.term,
                    total_accepted: d.total_accepted,
                },
            )
        } else {
            None
        }
    }

    /// The CUSIP number of the treasury.
    pub fn cusip(&self) -> (r: &str)
        ensures
            r@ == self@.cusip,
    {
        self.cusip.as_str()
    }

    /// The CUSIP number as an owned string.
    pub fn cusip_string(&self) -> (r: String)
        ensures
            r@ == self@.cusip,
    {
        self.cusip.clone()
    }

    /// Whether this record's CUSIP equals `c`.
    pub fn has_cusip(&self, c: &String) -> (r: bool)
        ensures
            r == (self@.cusip == c@),
    {
        self.cusip == *c
    }

    /// Whether the auction reopened an existing security rather than issuing
    /// a new one.
    pub fn is_reopening(&self) -> (r: bool)
        ensures
            r == self@.reopening,
    {
        self.reopening
    }

    /// Whether this record passes the tenor filter `t`.
    pub fn matches_tenor(&self, t: &Tenor) -> (r: bool)
        ensures
            r == matches_tenor(self@, *t),
    {
        if t.is_empty() {
            return true;
        }
        let rendered = t.to_string();
        self.term == rendered || self.security_term == rendered || self.original_security_term
            == rendered
    }

    /// The field headers for tabular output of a record; the last two depend
    /// on whether the security is a bill.
    pub fn get_fields(&self) -> (r: Vec<&'static str>)
        ensures
            r.deep_view() == field_labels(self@.security_type is Bill),
    {
        let mut fields: Vec<&'static str> = Vec::new();
        fields.push("Security Term");
        fields.push("CUSIP");
        fields.push("Reopening");
        fields.push("Security Type");
        fields.push("Issue Date");
        fields.push("Maturity Date");
        fields.push("Bid To Cover");
        fields.push("Dealers %");
        fields.push("Directs %");
        fields.push("Indirects %");
        if matches!(self.security_type, SecurityType::Bill) {
            fields.push("High Rate");
            fields.push("Investment Rate");
        } else {
            fields.push("High Yield");
            fields.push("Interest Rate");
        }
        proof {
            assert(fields.deep_view() =~= field_labels(self@.security_type is Bill));
        }
        fields
    }

    /// The date format used for display.
    pub fn get_default_date_fmt() -> (r: &'static str)
        ensures
            r@ == "%m/%d/%Y"@,
    {
        "%m/%d/%Y"
    }

    /// The term string of the record.
    pub fn get_term(&self) -> (r: &str)
        ensures
            r@ == self@.term,
    {
        self.term.as_str()
    }

    /// The security term string of the record.
    pub fn get_security_term(&self) -> (r: &str)
        ensures
            r@ == self@.security_term,
    {
        self.security_term.as_str()
    }

    /// The original security term string of the record.
    pub fn get_original_security_term(&self) -> (r: &str)
        ensures
            r@ == self@.original_security_term,
    {
        self.original_security_term.as_str()
    }

    /// The security type of the record.
    pub fn get_security_type(&self) -> (r: SecurityType)
        ensures
            r == self@.security_type,
    {
        self.security_type
    }

    /// The percentage of accepted competitive debt bought by primary dealers,
    /// in micro percentage points.
    pub fn get_percentage_debt_purchased_by_dealers(&self) -> (r: u64)
        ensures
            r == pct_micro(self@.primary_dealer_accepted, self@.competitive_accepted),
    {
        proof {
            use_type_invariant(self);
        }
        share_pct(self.primary_dealer_accepted, self.competitive_accepted)
    }

    /// The percentage of accepted competitive debt bought by direct bidders,
    /// in micro percentage points.
    pub fn get_percentage_debt_purchased_by_directs(&self) -> (r: u64)
        ensures
            r == pct_micro(self@.direct_bidder_accepted, self@.competitive_accepted),
    {
        proof {
            use_type_invariant(self);
        }
        share_pct(self.direct_bidder_accepted, self.competitive_accepted)
    }

    /// The percentage of accepted competitive debt bought by indirect
    /// bidders, in micro percentage points.
    pub fn get_percentage_debt_purchased_by_indirects(&self) -> (r: u64)
        ensures
            r == pct_micro(self@.indirect_bidder_accepted, self@.competitive_accepted),
    {
        proof {
            use_type_invariant(self);
        }
        share_pct(self.indirect_bidder_accepted, self.competitive_accepted)
    }

    /// The bid-to-cover ratio in micro units.
    pub fn get_bid_to_cover_ratio(&self) -> (r: u64)
        ensures
            r == self@.bid_to_cover_ratio,
    {
        self.bid_to_cover_ratio
    }

    /// The high rate of the auction in micro percentage points: the discount
    /// rate for bills, the high yield for everything else.
    pub fn get_high_yield(&self) -> (r: u64)
        ensures
            r == (if self@.security_type is Bill {
                self@.high_discount_rate
            } else {
                self@.high_yield
            }),
    {
        if matches!(self.security_type, SecurityType::Bill) {
            self.high_discount_rate
        } else {
            self.high_yield
        }
    }

    /// The issue date.
    pub fn get_issue_date(&self) -> (r: DateStamp)
        ensures
            r == self@.issue_date,
    {
        self.issue_date
    }

    /// The maturity date.
    pub fn get_maturity_date(&self) -> (r: DateStamp)
        ensures
            r == self@.maturity_date,
    {
        self.maturity_date
    }

    /// The interest-like rate of the auction in micro percentage points: the
    /// investment rate for bills, the interest rate for everything else.
    pub fn get_interest_rate(&self) -> (r: u64)
        ensures
            r == (if self@.security_type is Bill {
                self@.high_investment_rate
            } else {
                self@.interest_rate
            }),
    {
        if matches!(self.security_type, SecurityType::Bill) {
            self.high_investment_rate
        } else {
            self.interest_rate
        }
    }
}

impl Clone for Treasury {
    fn clone(&self) -> (r: Self)
        ensures
            r == *self,
    {
        proof {
            use_type_invariant(self);
        }
        Treasury {
            cusip: self.cusip.clone(),
            issue_date: self.issue_date,
            security_type: self.security_type,
            security_term: self.security_term.clone(),
            maturity_date: self.maturity_date,
            interest_rate: self.interest_rate,
            bid_to_cover_ratio: self.bid_to_cover_ratio,
            competitive_accepted: self.competitive_accepted,
            direct_bidder_accepted: self.direct_bidder_accepted,
            high_discount_rate: self.high_discount_rate,
            high_investment_rate: self.high_investment_rate,
            high_yield: self.high_yield,
            indirect_bidder_accepted: self.indirect_bidder_accepted,
            original_security_term: self.original_security_term.clone(),
            primary_dealer_accepted: self.primary_dealer_accepted,
            reopening: self.reopening,
            term: self.term.clone(),
            total_accepted: self.total_accepted,
        }
    }
}

/// The view of the empty record.
pub open spec fn empty_record() -> TreasuryView {
    TreasuryView {
        cusip: ""@,
        issue_date: DateStamp { year: 0, month: 0, day: 0, hour: 0, minute: 0, second: 0 },
        security_type: SecurityType::Null,
        security_term: ""@,
        maturity_date: DateStamp { year: 0, month: 0, day: 0, hour: 0, minute: 0, second: 0 },
        interest_rate: 0,
        bid_to_cover_ratio: 0,
        competitive_accepted: 0,
        direct_bidder_accepted: 0,
        high_discount_rate: 0,
        high_investment_rate: 0,
        high_yield: 0,
        indirect_bidder_accepted: 0,
        original_security_term: ""@,
        primary_dealer_accepted: 0,
        reopening: false,
        term: ""@,
        total_accepted: 0,
    }
}

/// The field headers for tabular output.
pub open spec fn field_labels(bill: bool) -> Seq<Seq<char>> {
    seq![
        "Security Term"@,
        "CUSIP"@,
        "Reopening"@,
        "Security Type"@,
        "Issue Date"@,
        "Maturity Date"@,
        "Bid To Cover"@,
        "Dealers %"@,
        "Directs %"@,
        "Indirects %"@,
        if bill {
            "High Rate"@
        } else {
            "High Yield"@
        },
        if bill {
            "Investment Rate"@
        } else {
            "Interest Rate"@
        },
    ]
}

/// The share of `total` that `part` makes up, in micro percentage points.
fn share_pct(part: u64, total: u64) -> (r: u64)
    requires
        part <= total,
        total <= AMOUNT_LIMIT,
    ensures
        r == pct_micro(part as int, total as int),
{
    if total == 0 {
        0
    } else {
        let a: u128 = (part as u128) * (PCT_SCALE as u128);
        let b: u128 = total as u128;
        let q = round_div_u128(a, b);
        proof {
            lemma_round_div_bound(a as int, b as int);
            assert((part as int * PCT_SCALE) / (total as int) <= PCT_SCALE) by (nonlinear_arith)
                requires
                    0 <= part <= total,
                    1 <= total,
                    PCT_SCALE == 100_000_000,
            ;
        }
        q as u64
    }
}

/// The list of treasuries a fetch returns.
pub type Treasuries = Vec<Treasury>;

} // verus!
