use cryptotrader::database::{
    add_timestamp, buy_stock, get_last_price, get_last_unsold_stock, get_unsold_stock, last_sell_prices, open,
    set_sold_stock, Statement,
};

fn pairs(s: &Statement) -> Vec<(String, String)> {
    s.params.iter().map(|p| (p.name.clone(), p.value.clone())).collect()
}

fn p(a: &str, b: &str) -> (String, String) {
    (a.to_string(), b.to_string())
}

#[test]
fn schema_creates_both_tables() {
    let statements = open();
    assert_eq!(statements.len(), 2);
    assert!(statements[0].starts_with("CREATE TABLE IF NOT EXISTS timestamp"));
    assert!(statements[1].starts_with("CREATE TABLE IF NOT EXISTS stock"));
}

#[test]
fn timestamp_insert() {
    let s = add_timestamp("BTC", "BUY_AT", "27123.45", "2023-11-14 22:13:20");
    assert_eq!(s.sql, "INSERT INTO timestamp (name, direction, value, datetime) VALUES (:name, :direction, :value, :datetime)");
    assert_eq!(
        pairs(&s),
        vec![p(":name", "BTC"), p(":direction", "BUY_AT"), p(":value", "27123.45"), p(":datetime", "2023-11-14 22:13:20")]
    );
}

#[test]
fn stock_insert_is_bought() {
    let s = buy_stock("BTC", "10", "27000", "0.5", "2023-11-14 22:13:20");
    assert!(s.sql.contains("0, :status"));
    assert_eq!(
        pairs(&s),
        vec![
            p(":name", "BTC"),
            p(":amount", "10"),
            p(":bought_at", "27000"),
            p(":status", "BOUGHT"),
            p(":datetime", "2023-11-14 22:13:20"),
            p(":fees", "0.5"),
        ]
    );
}

#[test]
fn stock_sale() {
    let s = set_sold_stock("4", "28000");
    assert_eq!(s.sql, "UPDATE stock SET status='SOLD', sold_at=:sold_at WHERE id=:id");
    assert_eq!(pairs(&s), vec![p(":id", "4"), p(":sold_at", "28000")]);
}

#[test]
fn queries_bind_their_parameters() {
    assert_eq!(pairs(&last_sell_prices("2023-11-07", "BTC")), vec![p(":check_period", "2023-11-07"), p(":name", "BTC")]);
    assert!(last_sell_prices("x", "y").sql.ends_with("ORDER BY id ASC"));
    assert_eq!(pairs(&get_last_price("BTC", "BUY_AT")), vec![p(":name", "BTC"), p(":direction", "BUY_AT")]);
    assert!(get_last_price("x", "y").sql.ends_with("LIMIT 1"));
    assert_eq!(pairs(&get_last_unsold_stock("BTC")), vec![p(":name", "BTC"), p(":status", "BOUGHT")]);
    assert_eq!(pairs(&get_unsold_stock("BTC")), vec![p(":name", "BTC"), p(":status", "BOUGHT")]);
    assert_eq!(get_unsold_stock("BTC").sql, "SELECT * FROM stock WHERE name = :name AND status = :status");
}
