use std::str::FromStr;

use auctionresult::SecurityType;

#[test]
fn it_should_convert_a_string_to_a_treasury_type() {
    let variants_as_str: [&str; 5] = ["bilL", "nOte", "Bond", "cmb", "frn"];
    let expected_variants: [SecurityType; 5] = [
        SecurityType::Bill,
        SecurityType::Note,
        SecurityType::Bond,
        SecurityType::Cmb,
        SecurityType::Frn,
    ];

    for (k, v) in variants_as_str.iter().enumerate() {
        assert_eq!(expected_variants[k], SecurityType::from_str(v).unwrap());
    }
}

#[test]
fn to_string() {
    let expected_variants: [SecurityType; 6] = [
        SecurityType::Bill,
        SecurityType::Note,
        SecurityType::Bond,
        SecurityType::Cmb,
        SecurityType::Frn,
        SecurityType::Null,
    ];

    let result_variants: [&str; 6] = ["Bill", "Note", "Bond", "CMB", "FRN", "Null"];

    for (index, variant) in expected_variants.iter().enumerate() {
        assert_eq!(result_variants[index], variant.to_string());
    }
}

#[test]
fn unknown_labels_are_rejected() {
    assert!(SecurityType::from_str("treasury").is_err());
    assert!(SecurityType::from_str("").is_err());
    assert!(SecurityType::from_str("Null").is_err());
}
