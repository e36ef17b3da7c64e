use cryptotrader::signing::{Credentials, Verb};
use cryptotrader::trade::{
    buy, buy_parameters_json, buy_request, check_period_start, continue_round, examined_count, get_account,
    should_we_buy, welcome_lines, BuyDecision, BuyPlan, Data, ReferralMoney,
};

fn credentials() -> Credentials {
    Credentials { api_key: "key123".to_string(), client_secret: "secret".to_string() }
}

#[test]
fn buys_below_the_last_purchase() {
    let recent = vec![true, true];
    assert_eq!(should_we_buy(Some(true), &recent), BuyDecision::BelowLastPurchase);
    assert_eq!(should_we_buy(Some(false), &recent), BuyDecision::Hold);
}

#[test]
fn recent_prices_count_only_without_an_unsold_purchase() {
    assert_eq!(should_we_buy(Some(false), &vec![true]), BuyDecision::Hold);
    assert_eq!(should_we_buy(None, &vec![true]), BuyDecision::BelowRecentPrice(0));
}

#[test]
fn buys_below_the_first_triggering_recent_price() {
    assert_eq!(should_we_buy(None, &vec![false, true, true]), BuyDecision::BelowRecentPrice(1));
    assert_eq!(should_we_buy(None, &vec![false, false, false]), BuyDecision::Hold);
    assert_eq!(should_we_buy(None, &Vec::new()), BuyDecision::Hold);
}

#[test]
fn round_ends_after_a_buy_against_the_last_purchase() {
    assert!(!continue_round(BuyDecision::BelowLastPurchase));
    assert!(continue_round(BuyDecision::Hold));
    assert!(continue_round(BuyDecision::BelowRecentPrice(3)));
    let decisions = vec![
        BuyDecision::Hold,
        BuyDecision::BelowRecentPrice(0),
        BuyDecision::BelowLastPurchase,
        BuyDecision::Hold,
    ];
    assert_eq!(examined_count(&decisions), 3);
    assert_eq!(examined_count(&vec![BuyDecision::Hold, BuyDecision::Hold]), 2);
    assert_eq!(examined_count(&vec![BuyDecision::BelowLastPurchase, BuyDecision::BelowLastPurchase]), 1);
    assert_eq!(examined_count(&Vec::new()), 0);
}

#[test]
fn buy_order_body() {
    assert_eq!(buy_parameters_json("10.0"), "{\"amount\":10.0,\"currency\":\"EUR\"}");
    assert_eq!(buy_parameters_json("1e-6"), "{\"amount\":1e-6,\"currency\":\"EUR\"}");
}

#[test]
fn buy_plans_an_order_when_affordable() {
    match buy("BTC", true, "10.0") {
        BuyPlan::Order { account_variable, body } => {
            assert_eq!(account_variable, "account_id_btc");
            assert_eq!(body, "{\"amount\":10.0,\"currency\":\"EUR\"}");
        }
        BuyPlan::Skip => panic!("expected an order"),
    }
}

#[test]
fn buy_skips_when_the_minimum_would_be_broken() {
    assert!(matches!(buy("ETH", false, "10.0"), BuyPlan::Skip));
}

#[test]
fn buy_request_posts_to_the_account() {
    let body = "{\"amount\":10.0,\"currency\":\"EUR\"}";
    let request = buy_request("abc", body, 1700000000, &credentials());
    assert_eq!(request.verb, Verb::Post);
    assert_eq!(request.url, "https://api.coinbase.com/v2/accounts/abc/buys");
    assert_eq!(request.headers[2].value, "a8e5308f37fe15a2a1e8ddb12aa8735e8bc62c0f90ec7e4d66a1e78df32ebfc9");
}

#[test]
fn get_account_fetches_the_account() {
    let request = get_account("eur-1", 1700000000, &credentials());
    assert_eq!(request.verb, Verb::Get);
    assert_eq!(request.url, "https://api.coinbase.com/v2/accounts/eur-1");
    assert_eq!(request.headers.len(), 5);
    assert_eq!(request.headers[1].value, "key123");
}

#[test]
fn check_period_start_days_back() {
    assert_eq!(check_period_start(1700000000, 7), Some("2023-11-07".to_string()));
    assert_eq!(check_period_start(1700000000, 0), Some("2023-11-14".to_string()));
    assert_eq!(check_period_start(0, -1), Some("1970-01-02".to_string()));
}

#[test]
fn check_period_start_out_of_range() {
    assert_eq!(check_period_start(0, 106_751_991_168), None);
    assert_eq!(check_period_start(0, 106_751_991_167), None);
    assert_eq!(check_period_start(i64::MIN, 1), None);
    assert_eq!(check_period_start(0, i64::MIN), None);
}

#[test]
fn welcome_banner() {
    let user = Data {
        id: "u-1".to_string(),
        name: "Ada".to_string(),
        email: "ada@example.com".to_string(),
        referral_money: ReferralMoney {
            amount: "0".to_string(),
            currency: "EUR".to_string(),
            referral_threshold: "0".to_string(),
        },
    };
    let rule = "=".repeat(71);
    assert_eq!(welcome_lines(&user), vec!["\n\n".to_string(), rule.clone(), "Welcome Ada".to_string(), "ID : u-1".to_string(), rule]);
}
