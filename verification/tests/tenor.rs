use auctionresult::tenor::Tenor;
use auctionresult::tenor::TenorUnit;
use auctionresult::treasury::AuctionResultError;

#[test]
fn it_should_correctly_parse_a_tenor() {
    let result = Tenor::parse("10-Y");

    assert!(result.is_ok());
    let tenor = result.unwrap();
    assert_eq!(tenor.security(), 10);
    assert_eq!(tenor.term(), "Year");
    assert_eq!(tenor.to_string(), "10-Year");
}

#[test]
fn it_should_return_a_parse_error() {
    let result = Tenor::parse("--Y");

    assert!(matches!(result, Err(AuctionResultError::ParseTenor)));
}

#[test]
fn parses_compact_and_verbose_forms() {
    let t = Tenor::parse("10y").unwrap();
    assert_eq!(t.security(), 10);
    assert_eq!(t.unit, TenorUnit::Year);

    let t = Tenor::parse("2months").unwrap();
    assert_eq!(t.security(), 2);
    assert_eq!(t.unit, TenorUnit::Month);
    assert_eq!(t.shortcut(), "m");

    let t = Tenor::parse("6-W").unwrap();
    assert_eq!(t.unit, TenorUnit::Week);
    assert_eq!(t.term(), "Week");

    let t = Tenor::parse("30d").unwrap();
    assert_eq!(t.unit, TenorUnit::Day);
}

#[test]
fn round_trips_through_rendering() {
    for input in ["10-Y", "2m", "52w", "30-days", "1y", "4294967295y"] {
        let first = Tenor::parse(input).unwrap();
        let rendered = first.to_string();
        let second = Tenor::parse(&rendered).unwrap();
        assert_eq!(first, second);
        assert_eq!(second.to_string(), rendered);
    }
}

#[test]
fn rejects_malformed_input() {
    assert!(Tenor::parse("--Y").is_err());
    assert!(Tenor::parse("10").is_err());
    assert!(Tenor::parse("10x").is_err());
    assert!(Tenor::parse("y10").is_err());
    assert!(Tenor::parse("10-").is_err());
    assert!(Tenor::parse("10 y").is_err());
    // Magnitude too large for 32 bits.
    assert!(Tenor::parse("4294967296y").is_err());
}

#[test]
fn empty_input_is_the_empty_sentinel() {
    let t = Tenor::parse("").unwrap();
    assert!(t.is_empty());
    assert_eq!(t.security(), 0);
    assert_eq!(t.term(), "");
    assert_eq!(t.shortcut(), "");

    // A zero magnitude with a real unit is not the sentinel.
    let t = Tenor::parse("0-Year").unwrap();
    assert!(!t.is_empty());
    assert_eq!(t.security(), 0);
    assert_eq!(t.unit, TenorUnit::Year);
}
