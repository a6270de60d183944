use auctionresult::decimal::micro_from_decimal_str;
use auctionresult::tenor::Tenor;
use auctionresult::treasury::DateStamp;
use auctionresult::treasury::Treasury;
use auctionresult::treasury::TreasuryData;
use auctionresult::SecurityType;

fn data(sectype: SecurityType) -> TreasuryData {
    TreasuryData {
        cusip: "91282CJQ5".to_string(),
        issue_date: DateStamp { year: 2023, month: 12, day: 15, hour: 0, minute: 0, second: 0 },
        security_type: sectype,
        security_term: "2-Year".to_string(),
        maturity_date: DateStamp { year: 2025, month: 12, day: 15, hour: 0, minute: 0, second: 0 },
        interest_rate: 4_375_000,
        bid_to_cover_ratio: 2_580_000,
        competitive_accepted: 100_000,
        direct_bidder_accepted: 20_500,
        high_discount_rate: 5_280_000,
        high_investment_rate: 5_450_000,
        high_yield: 4_400_000,
        indirect_bidder_accepted: 65_000,
        original_security_term: "2-Year".to_string(),
        primary_dealer_accepted: 14_500,
        reopening: false,
        term: "2-Year".to_string(),
        total_accepted: 110_000,
    }
}

#[test]
fn percentages_are_exact_shares_of_the_competitive_total() {
    let t = Treasury::from_parts(data(SecurityType::Note)).unwrap();
    assert_eq!(14_500_000, t.get_percentage_debt_purchased_by_dealers());
    assert_eq!(20_500_000, t.get_percentage_debt_purchased_by_directs());
    assert_eq!(65_000_000, t.get_percentage_debt_purchased_by_indirects());
    assert_eq!(2_580_000, t.get_bid_to_cover_ratio());
}

#[test]
fn percentages_round_to_the_nearest_micro_point() {
    let mut d = data(SecurityType::Note);
    d.competitive_accepted = 3;
    d.primary_dealer_accepted = 1;
    d.direct_bidder_accepted = 2;
    d.indirect_bidder_accepted = 0;
    let t = Treasury::from_parts(d).unwrap();
    // 1/3 = 33.333333...%, rounded to the nearest micro point.
    assert_eq!(33_333_333, t.get_percentage_debt_purchased_by_dealers());
    // 2/3 = 66.666666...%, the half-way-and-above cases round up.
    assert_eq!(66_666_667, t.get_percentage_debt_purchased_by_directs());
    assert_eq!(0, t.get_percentage_debt_purchased_by_indirects());
}

#[test]
fn a_zero_competitive_total_yields_zero_percentages() {
    let mut d = data(SecurityType::Note);
    d.competitive_accepted = 0;
    d.primary_dealer_accepted = 0;
    d.direct_bidder_accepted = 0;
    d.indirect_bidder_accepted = 0;
    let t = Treasury::from_parts(d).unwrap();
    assert_eq!(0, t.get_percentage_debt_purchased_by_dealers());
}

#[test]
fn bills_report_discount_and_investment_rates() {
    let bill = Treasury::from_parts(data(SecurityType::Bill)).unwrap();
    assert_eq!(5_280_000, bill.get_high_yield());
    assert_eq!(5_450_000, bill.get_interest_rate());

    let note = Treasury::from_parts(data(SecurityType::Note)).unwrap();
    assert_eq!(4_400_000, note.get_high_yield());
    assert_eq!(4_375_000, note.get_interest_rate());
}

#[test]
fn records_outside_the_machine_bounds_are_rejected() {
    let mut d = data(SecurityType::Note);
    d.primary_dealer_accepted = d.competitive_accepted + 1;
    assert!(Treasury::from_parts(d).is_none());

    let mut d = data(SecurityType::Note);
    d.bid_to_cover_ratio = 1_000_000_000_001;
    assert!(Treasury::from_parts(d).is_none());

    let mut d = data(SecurityType::Note);
    d.competitive_accepted = 2_000_000_000_000_000_000;
    d.total_accepted = 2_000_000_000_000_000_000;
    assert!(Treasury::from_parts(d).is_none());
}

#[test]
fn the_empty_record_has_empty_fields() {
    let t = Treasury::new();
    assert_eq!("", t.cusip());
    assert_eq!("", t.get_term());
    assert_eq!(SecurityType::Null, t.get_security_type());
    assert!(!t.is_reopening());
    assert_eq!(0, t.get_bid_to_cover_ratio());
}

#[test]
fn field_headers_follow_the_security_type() {
    let bill = Treasury::from_parts(data(SecurityType::Bill)).unwrap();
    let fields = bill.get_fields();
    assert_eq!(12, fields.len());
    assert_eq!("Security Term", fields[0]);
    assert_eq!("High Rate", fields[10]);
    assert_eq!("Investment Rate", fields[11]);

    let bond = Treasury::from_parts(data(SecurityType::Bond)).unwrap();
    let fields = bond.get_fields();
    assert_eq!("High Yield", fields[10]);
    assert_eq!("Interest Rate", fields[11]);
    assert_eq!("%m/%d/%Y", Treasury::get_default_date_fmt());
}

#[test]
fn records_match_their_tenor() {
    let t = Treasury::from_parts(data(SecurityType::Note)).unwrap();
    assert!(t.matches_tenor(&Tenor::parse("2y").unwrap()));
    assert!(t.matches_tenor(&Tenor::parse("").unwrap()));
    assert!(!t.matches_tenor(&Tenor::parse("10y").unwrap()));
    assert_eq!("2-Year", t.get_security_term());
    assert_eq!("2-Year", t.get_original_security_term());
    assert_eq!(2023, t.get_issue_date().year);
}

#[test]
fn decimal_strings_parse_to_micro_units() {
    assert_eq!(Some(2_500_000), micro_from_decimal_str("2.5"));
    assert_eq!(Some(2_580_000), micro_from_decimal_str("2.580000"));
    assert_eq!(Some(0), micro_from_decimal_str("0"));
    assert_eq!(Some(0), micro_from_decimal_str("0.000000"));
    assert_eq!(Some(56_314_081_600_500_000), micro_from_decimal_str("56314081600.5"));
    assert_eq!(Some(2_000_000), micro_from_decimal_str("2."));
    assert_eq!(Some(500_000), micro_from_decimal_str(".5"));
    // Fraction digits beyond the sixth are dropped.
    assert_eq!(Some(1_234_567), micro_from_decimal_str("1.23456789"));
}

#[test]
fn malformed_decimal_strings_are_rejected() {
    assert_eq!(None, micro_from_decimal_str(""));
    assert_eq!(None, micro_from_decimal_str("."));
    assert_eq!(None, micro_from_decimal_str("-2.5"));
    assert_eq!(None, micro_from_decimal_str("1e3"));
    assert_eq!(None, micro_from_decimal_str("2.5.0"));
    assert_eq!(None, micro_from_decimal_str("12a"));
    // Too large for 64-bit micro units.
    assert_eq!(None, micro_from_decimal_str("99999999999999.0"));
}
