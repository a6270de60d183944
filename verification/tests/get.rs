use auctionresult::get::Get;
use auctionresult::get::TREASURIES_URL;
use auctionresult::treasury::AuctionResultError;
use auctionresult::validate_cusip;

const TEST_CUSIP: &str = "91282CJQ5";

#[test]
fn it_should_correctly_build_an_url() {
    let g = Get::new(TEST_CUSIP);
    assert_eq!(
        format!("{}?cusip={}&format=json", TREASURIES_URL, TEST_CUSIP),
        g.url()
    );
}

#[test]
fn it_should_handle_an_invalid_cusip() {
    let g = Get::new("x1");

    let result = g.validated_url();
    assert!(result.is_err());
    assert!(matches!(result, Err(AuctionResultError::ParseCusip)));
}

#[test]
fn the_host_prefixes_the_url() {
    let mut g = Get::new(TEST_CUSIP);
    g.set_host("https://localhost:12000");
    assert_eq!(
        format!(
            "https://localhost:12000{}?cusip={}&format=json",
            TREASURIES_URL, TEST_CUSIP
        ),
        g.url()
    );
}

#[test]
fn valid_cusips_pass_validation() {
    assert!(validate_cusip("91282CJQ5"));
    assert!(validate_cusip("912810SH2"));
    assert!(validate_cusip("912810EY0"));
}

#[test]
fn invalid_cusips_fail_validation() {
    assert!(!validate_cusip("x1"));
    assert!(!validate_cusip(""));
    assert!(!validate_cusip("912810SH3")); // wrong check digit
    assert!(!validate_cusip("912810SH21")); // too long
}

#[test]
fn a_valid_cusip_yields_the_url() {
    let g = Get::new(TEST_CUSIP);
    let url = g.validated_url().unwrap();
    assert_eq!(url, g.url());
}
