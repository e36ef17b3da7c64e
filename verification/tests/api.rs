use cryptotrader::api::{fetch_crypto, get_values};

#[test]
fn price_requests_for_each_side() {
    let queries = get_values("BTC,ETH");
    let seen: Vec<(String, String, String)> =
        queries.into_iter().map(|q| (q.url, q.direction, q.crypto)).collect();
    assert_eq!(
        seen,
        vec![
            ("https://api.coinbase.com/v2/prices/BTC-EUR/buy".to_string(), "BUY_AT".to_string(), "BTC".to_string()),
            ("https://api.coinbase.com/v2/prices/ETH-EUR/buy".to_string(), "BUY_AT".to_string(), "ETH".to_string()),
            ("https://api.coinbase.com/v2/prices/BTC-EUR/sell".to_string(), "SELL_AT".to_string(), "BTC".to_string()),
            ("https://api.coinbase.com/v2/prices/ETH-EUR/sell".to_string(), "SELL_AT".to_string(), "ETH".to_string()),
        ]
    );
}

#[test]
fn no_currency_no_request() {
    assert!(fetch_crypto(&Vec::new()).is_empty());
}
