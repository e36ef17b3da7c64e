use cryptotrader::signing::{connect, construct_headers, get_access_sign, Credentials, Verb};

fn credentials() -> Credentials {
    Credentials { api_key: "key123".to_string(), client_secret: "secret".to_string() }
}

#[test]
fn access_sign_is_hex_hmac_of_the_message() {
    let sign = get_access_sign(1700000000, "GET", "/v2/user", "", "secret");
    assert_eq!(sign, "b5253f48e5dda64ae9915fc03cdcd8d981e24ca05c14832bd4f7bab1d8e47dec");
}

#[test]
fn access_sign_covers_the_body() {
    let sign = get_access_sign(
        1700000000,
        "POST",
        "/v2/accounts/abc/buys",
        "{\"amount\":10.0,\"currency\":\"EUR\"}",
        "secret",
    );
    assert_eq!(sign, "a8e5308f37fe15a2a1e8ddb12aa8735e8bc62c0f90ec7e4d66a1e78df32ebfc9");
}

#[test]
fn access_sign_shape() {
    let sign = get_access_sign(0, "", "", "", "");
    assert_eq!(sign.len(), 64);
    assert!(sign.chars().all(|c| c.is_ascii_digit() || ('a'..='f').contains(&c)));
}

#[test]
fn headers_in_order() {
    let headers = construct_headers(1700000000, "GET", "/v2/user", "", "key123", "secret");
    let pairs: Vec<(String, String)> = headers.into_iter().map(|h| (h.name, h.value)).collect();
    assert_eq!(
        pairs,
        vec![
            ("content-type".to_string(), "application/json".to_string()),
            ("CB-ACCESS-KEY".to_string(), "key123".to_string()),
            (
                "CB-ACCESS-SIGN".to_string(),
                "b5253f48e5dda64ae9915fc03cdcd8d981e24ca05c14832bd4f7bab1d8e47dec".to_string()
            ),
            ("CB-ACCESS-TIMESTAMP".to_string(), "1700000000".to_string()),
            ("CB-VERSION".to_string(), "2022-05-10".to_string()),
        ]
    );
}

#[test]
fn connect_get_signs_an_empty_body() {
    let request = connect("GET", "/v2/user", "ignored", 1700000000, &credentials());
    assert_eq!(request.verb, Verb::Get);
    assert_eq!(request.url, "https://api.coinbase.com/v2/user");
    assert_eq!(request.headers[2].value, "b5253f48e5dda64ae9915fc03cdcd8d981e24ca05c14832bd4f7bab1d8e47dec");
}

#[test]
fn connect_post_signs_the_body() {
    let body = "{\"amount\":10.0,\"currency\":\"EUR\"}";
    let request = connect("POST", "/v2/accounts/abc/buys", body, 1700000000, &credentials());
    assert_eq!(request.verb, Verb::Post);
    assert_eq!(request.url, "https://api.coinbase.com/v2/accounts/abc/buys");
    assert_eq!(request.headers[2].value, "a8e5308f37fe15a2a1e8ddb12aa8735e8bc62c0f90ec7e4d66a1e78df32ebfc9");
    assert_eq!(request.headers[3].value, "1700000000");
}

#[test]
fn get_request_does_not_depend_on_the_body() {
    let a = connect("GET", "/v2/user", "one body", 1700000000, &credentials());
    let b = connect("GET", "/v2/user", "another", 1700000000, &credentials());
    let values = |r: &cryptotrader::signing::SignedRequest| -> Vec<String> { r.headers.iter().map(|h| h.value.clone()).collect() };
    assert_eq!(values(&a), values(&b));
    assert_eq!(a.url, b.url);
}

#[test]
fn timestamp_header_reads_back() {
    for ts in [0u64, 7, 1700000000, u64::MAX] {
        let headers = construct_headers(ts, "GET", "/", "", "k", "s");
        assert_eq!(headers[3].value.parse::<u64>().unwrap(), ts);
    }
}

#[test]
fn different_moments_sign_differently() {
    let a = get_access_sign(1700000000, "GET", "/v2/user", "", "secret");
    let b = get_access_sign(1700000001, "GET", "/v2/user", "", "secret");
    assert_ne!(a, b);
}
