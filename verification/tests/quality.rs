use auctionresult::quality::score;
use auctionresult::quality::select_peer_window;
use auctionresult::quality::QualityCommand;
use auctionresult::treasury::AuctionResultError;
use auctionresult::treasury::DateStamp;
use auctionresult::treasury::Treasury;
use auctionresult::treasury::TreasuryData;
use auctionresult::SecurityType;

const TEST_CUSIP: &str = "912810SH2";
const OUT_OF_BOUND_CUSIP: &str = "912810EY0";

/// A 30-year bond record with the given metrics: bid-to-cover in micro
/// units, the three bidder-class percentages in thousandths of a percent
/// (their accepted amounts against a competitive total of 100 000).
fn bond(cusip: &str, reopening: bool, btc: u64, dealers: u64, directs: u64, indirects: u64) -> Treasury {
    Treasury::from_parts(TreasuryData {
        cusip: cusip.to_string(),
        issue_date: DateStamp { year: 2024, month: 2, day: 15, hour: 0, minute: 0, second: 0 },
        security_type: SecurityType::Bond,
        security_term: "30-Year".to_string(),
        maturity_date: DateStamp { year: 2054, month: 2, day: 15, hour: 0, minute: 0, second: 0 },
        interest_rate: 4_250_000,
        bid_to_cover_ratio: btc,
        competitive_accepted: 100_000,
        direct_bidder_accepted: directs,
        high_discount_rate: 0,
        high_investment_rate: 0,
        high_yield: 4_300_000,
        indirect_bidder_accepted: indirects,
        original_security_term: "30-Year".to_string(),
        primary_dealer_accepted: dealers,
        reopening,
        term: "30-Year".to_string(),
        total_accepted: 110_000,
    })
    .unwrap()
}

/// The regression cohort: the target, five new-issue peers and one reopening
/// interleaved, newest first.
fn bond_cohort() -> Vec<Treasury> {
    vec![
        // The target: bid-to-cover 2.606, dealers 55.5%, directs 10%,
        // indirects 20.4%.
        bond(TEST_CUSIP, false, 2_606_000, 55_500, 10_000, 20_400),
        bond("912810TM0", false, 2_400_000, 48_000, 10_000, 18_000),
        bond("912810TL2", false, 2_450_000, 49_000, 11_000, 19_000),
        // A reopening: skipped by the peer window.
        bond("912810TK4", true, 9_900_000, 99_000, 99_000, 99_000),
        bond("912810TJ7", false, 2_500_000, 50_000, 12_000, 20_000),
        bond("912810TH1", false, 2_550_000, 51_000, 13_000, 21_000),
        bond("912810TG3", false, 2_600_000, 52_000, 14_000, 22_000),
    ]
}

#[test]
fn it_should_assess_the_quality_of_an_auction() {
    let quality = QualityCommand::new(TEST_CUSIP, 5);
    let fetched = vec![bond(TEST_CUSIP, false, 2_606_000, 55_500, 10_000, 20_400)];
    let cohort = bond_cohort();

    let auction_quality = quality.calculate_from(&fetched, &cohort).unwrap();

    // The weighted deviations: 0.5 * 0.106 - 0.4 * 5.5 - 0.025 * (-2.0)
    // - 0.075 * 0.4 = -2.127, in milli units.
    assert_eq!(-2127, auction_quality.get());
    assert_eq!(TEST_CUSIP, auction_quality.cusip());
    assert_eq!(5, auction_quality.get_number_of_lookback_auctions());
    // The peer means: bid-to-cover 2.5, dealers 50%, directs 12%,
    // indirects 20%.
    assert_eq!(2_500_000, auction_quality.get_bid_to_cover_ratio());
    assert_eq!(50_000_000, auction_quality.get_percentage_debt_purchased_by_dealers());
    assert_eq!(12_000_000, auction_quality.get_percentage_debt_purchased_by_directs());
    assert_eq!(20_000_000, auction_quality.get_percentage_debt_purchased_by_indirects());
    assert_eq!(TEST_CUSIP, auction_quality.get_treasury().cusip());
}

#[test]
fn it_should_correctly_handle_out_of_bound_conditions() {
    let quality = QualityCommand::new(OUT_OF_BOUND_CUSIP, 5);
    // The target is a very old bond: it sits so deep in the cohort that no
    // five older auctions remain after it.
    let fetched = vec![bond(OUT_OF_BOUND_CUSIP, false, 2_300_000, 50_000, 10_000, 20_000)];
    let mut cohort = bond_cohort();
    cohort.push(bond(OUT_OF_BOUND_CUSIP, false, 2_300_000, 50_000, 10_000, 20_000));
    cohort.push(bond("912810TF5", false, 2_350_000, 50_000, 10_000, 20_000));

    let auction_quality = quality.calculate_from(&fetched, &cohort);

    assert!(auction_quality.is_err());
    assert!(matches!(
        auction_quality,
        Err(AuctionResultError::OutOfBounds)
    ));
}

#[test]
fn the_peer_window_skips_reopenings() {
    // The second-oldest peer is a reopening: a lookback of two skips it and
    // takes the third-oldest instead.
    let cohort = vec![
        bond(TEST_CUSIP, false, 2_500_000, 50_000, 10_000, 20_000),
        bond("912810TM0", false, 2_400_000, 50_000, 10_000, 20_000),
        bond("912810TL2", true, 2_450_000, 50_000, 10_000, 20_000),
        bond("912810TJ7", false, 2_600_000, 50_000, 10_000, 20_000),
    ];
    let window = select_peer_window(&cohort, &TEST_CUSIP.to_string(), 2).unwrap();
    assert_eq!(2, window.len());
    assert_eq!("912810TM0", window[0].cusip());
    assert_eq!("912810TJ7", window[1].cusip());
}

#[test]
fn a_cohort_of_exactly_lookback_records_is_out_of_bounds() {
    // Three records for a lookback of three: one short of the needed
    // lookback + 1, so no window exists.
    let cohort = vec![
        bond(TEST_CUSIP, false, 2_500_000, 50_000, 10_000, 20_000),
        bond("912810TM0", false, 2_400_000, 50_000, 10_000, 20_000),
        bond("912810TL2", false, 2_450_000, 50_000, 10_000, 20_000),
    ];
    let window = select_peer_window(&cohort, &TEST_CUSIP.to_string(), 3);
    assert!(matches!(window, Err(AuctionResultError::OutOfBounds)));

    // Enough records overall, but not after the target's position.
    let cohort = vec![
        bond("912810TM0", false, 2_400_000, 50_000, 10_000, 20_000),
        bond(TEST_CUSIP, false, 2_500_000, 50_000, 10_000, 20_000),
        bond("912810TL2", false, 2_450_000, 50_000, 10_000, 20_000),
        bond("912810TJ7", false, 2_600_000, 50_000, 10_000, 20_000),
    ];
    let window = select_peer_window(&cohort, &TEST_CUSIP.to_string(), 3);
    assert!(matches!(window, Err(AuctionResultError::OutOfBounds)));
}

#[test]
fn an_absent_cusip_is_no_treasury() {
    let cohort = vec![
        bond("912810TM0", false, 2_400_000, 50_000, 10_000, 20_000),
        bond("912810TL2", false, 2_450_000, 50_000, 10_000, 20_000),
    ];
    let window = select_peer_window(&cohort, &TEST_CUSIP.to_string(), 1);
    assert!(matches!(window, Err(AuctionResultError::NoTreasury)));
}

#[test]
fn scoring_is_deterministic_and_rounded() {
    // Target bid-to-cover 2.3 against a peer mean of 2.0 with weight 0.5 and
    // every other metric equal to its mean: 0.15 exactly.
    let target = bond(TEST_CUSIP, false, 2_300_000, 50_000, 10_000, 20_000);
    let peers = vec![
        bond("912810TM0", false, 1_900_000, 50_000, 10_000, 20_000),
        bond("912810TL2", false, 2_100_000, 50_000, 10_000, 20_000),
    ];
    let first = score(&target, &peers, 2).unwrap();
    let second = score(&target, &peers, 2).unwrap();
    assert_eq!(150, first.get());
    assert_eq!(150, second.get());
    assert_eq!(2_000_000, first.get_bid_to_cover_ratio());
}

#[test]
fn the_final_rounding_is_half_away_from_zero() {
    // A deviation of one thousandth of a point scores half a milli unit,
    // which rounds away from zero.
    let peers = vec![bond("912810TM0", false, 2_000_000, 50_000, 10_000, 20_000)];
    let above = bond(TEST_CUSIP, false, 2_001_000, 50_000, 10_000, 20_000);
    assert_eq!(1, score(&above, &peers, 1).unwrap().get());
    let below = bond(TEST_CUSIP, false, 1_999_000, 50_000, 10_000, 20_000);
    assert_eq!(-1, score(&below, &peers, 1).unwrap().get());
}

#[test]
fn a_short_window_under_weights_nothing_but_fails() {
    // The scorer re-checks the window size defensively.
    let target = bond(TEST_CUSIP, false, 2_300_000, 50_000, 10_000, 20_000);
    let peers = vec![bond("912810TM0", false, 2_000_000, 50_000, 10_000, 20_000)];
    let result = score(&target, &peers, 2);
    assert!(matches!(result, Err(AuctionResultError::OutOfBounds)));
}

#[test]
fn an_empty_fetch_is_no_treasury() {
    let quality = QualityCommand::new(TEST_CUSIP, 5);
    let result = quality.calculate_from(&vec![], &bond_cohort());
    assert!(matches!(result, Err(AuctionResultError::NoTreasury)));
}

#[test]
fn an_unparseable_term_is_a_tenor_error() {
    let quality = QualityCommand::new(TEST_CUSIP, 5);
    // A target whose term is no tenor.
    let odd = Treasury::from_parts(TreasuryData {
        cusip: TEST_CUSIP.to_string(),
        issue_date: DateStamp { year: 2024, month: 2, day: 15, hour: 0, minute: 0, second: 0 },
        security_type: SecurityType::Bond,
        security_term: "n/a".to_string(),
        maturity_date: DateStamp { year: 2054, month: 2, day: 15, hour: 0, minute: 0, second: 0 },
        interest_rate: 0,
        bid_to_cover_ratio: 0,
        competitive_accepted: 0,
        direct_bidder_accepted: 0,
        high_discount_rate: 0,
        high_investment_rate: 0,
        high_yield: 0,
        indirect_bidder_accepted: 0,
        original_security_term: "n/a".to_string(),
        primary_dealer_accepted: 0,
        reopening: false,
        term: "n/a".to_string(),
        total_accepted: 0,
    })
    .unwrap();
    let result = quality.calculate_from(&vec![odd], &bond_cohort());
    assert!(matches!(result, Err(AuctionResultError::ParseTenor)));
}

#[test]
fn the_lookback_defaults_to_five() {
    let quality = QualityCommand::new(TEST_CUSIP, 0);
    assert_eq!(5, quality.get_number_of_lookback_auctions());
    assert_eq!(TEST_CUSIP, quality.cusip());
    let explicit = QualityCommand::new(TEST_CUSIP, 7);
    assert_eq!(7, explicit.get_number_of_lookback_auctions());
}

#[test]
fn the_cohort_request_carries_type_and_tenor() {
    let mut quality = QualityCommand::new(TEST_CUSIP, 5);
    quality.set_host("https://localhost:12000");
    let fetched = vec![bond(TEST_CUSIP, false, 2_606_000, 55_500, 10_000, 20_400)];
    let latest = quality.cohort_request(&fetched).unwrap();
    assert_eq!(SecurityType::Bond, latest.get_security_type());
    assert_eq!(0, latest.get_days());
    assert_eq!(30, latest.tenor.security());
    assert_eq!(
        "https://localhost:12000/securities/auctioned?type=Bond",
        latest.url()
    );
}
