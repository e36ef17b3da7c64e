use cryptotrader::api::get_cryptos;
use cryptotrader::text::{split_on_commas, str_eq};

#[test]
fn cryptos_split_on_commas() {
    assert_eq!(get_cryptos("BTC,ETH,SOL"), vec!["BTC", "ETH", "SOL"]);
    assert_eq!(get_cryptos("BTC"), vec!["BTC"]);
}

#[test]
fn empty_fields_are_kept() {
    assert_eq!(get_cryptos(""), vec![""]);
    assert_eq!(get_cryptos("A,,B"), vec!["A", "", "B"]);
    assert_eq!(get_cryptos("BTC,"), vec!["BTC", ""]);
    assert_eq!(split_on_commas(","), vec!["", ""]);
}

#[test]
fn fields_join_back_to_the_text() {
    for s in ["", "a", "a,b", ",", "x,,y,", "BTC,ETH"] {
        assert_eq!(split_on_commas(s).join(","), s);
    }
}

#[test]
fn text_equality() {
    assert!(str_eq("GET", "GET"));
    assert!(!str_eq("GET", "POST"));
    assert!(!str_eq("GET", "GE"));
    assert!(str_eq("", ""));
}
