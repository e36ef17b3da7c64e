//! The SQL statements that store and query the bot's records: observed
//! prices and purchases.
use vstd::prelude::*;

verus! {

/// A named parameter of a statement and the text bound to it.
#[derive(Debug)]
pub struct Param {
    pub name: String,
    pub value: String,
}

/// An SQL statement with its named parameters.
#[derive(Debug)]
pub struct Statement {
    pub sql: String,
    pub params: Vec<Param>,
}

/// The text of a statement and the names and values of its parameters.
pub open spec fn statement_view(s: Statement) -> (Seq<char>, Seq<(Seq<char>, Seq<char>)>) {
    (s.sql@, s.params@.map_values(|p: Param| (p.name@, p.value@)))
}

fn param(name: &str, value: &str) -> (p: Param)
    ensures
        p.name@ == name@,
        p.value@ == value@,
{
    Param { name: String::from_str(name), value: String::from_str(value) }
}

fn statement(sql: &str, params: Vec<Param>) -> (s: Statement)
    ensures
        s.sql@ == sql@,
        s.params == params,
{
    Statement { sql: String::from_str(sql), params }
}

/// The statement that creates the table of observed prices if it is missing.
pub open spec fn create_timestamp_sql() -> Seq<char> {
    "CREATE TABLE IF NOT EXISTS timestamp (id INTEGER PRIMARY KEY AUTOINCREMENT, name TEXT NOT NULL, direction TEXT NOT NULL, value DECIMAL(10, 2) NOT NULL, datetime TEXT NOT NULL)"@
}

/// The statement that creates the table of purchases if it is missing.
pub open spec fn create_stock_sql() -> Seq<char> {
    "CREATE TABLE IF NOT EXISTS stock (id INTEGER PRIMARY KEY AUTOINCREMENT, name TEXT NOT NULL, amount DECIMAL(10,2) NOT NULL, bought_at DECIMAL(10,2) NOT NULL, sold_at DECIMAL(10,2) NULL, status TEXT NOT NULL, datetime TEXT NOT NULL, fees DECIMAL(10,2) NOT NULL)"@
}

/// The statements that `open` runs on the database: the table of observed
/// prices, then the table of purchases.
pub fn open() -> (statements: Vec<String>)
    ensures
        crate::text::views(statements@) == seq![create_timestamp_sql(), create_stock_sql()],
{
    let mut statements: Vec<String> = Vec::new();
    statements.push(String::from_str(
        "CREATE TABLE IF NOT EXISTS timestamp (id INTEGER PRIMARY KEY AUTOINCREMENT, name TEXT NOT NULL, direction TEXT NOT NULL, value DECIMAL(10, 2) NOT NULL, datetime TEXT NOT NULL)",
    ));
    statements.push(String::from_str(
        "CREATE TABLE IF NOT EXISTS stock (id INTEGER PRIMARY KEY AUTOINCREMENT, name TEXT NOT NULL, amount DECIMAL(10,2) NOT NULL, bought_at DECIMAL(10,2) NOT NULL, sold_at DECIMAL(10,2) NULL, status TEXT NOT NULL, datetime TEXT NOT NULL, fees DECIMAL(10,2) NOT NULL)",
    ));
    assert(crate::text::views(statements@) =~= seq![create_timestamp_sql(), create_stock_sql()]);
    statements
}

/// Whether the column `column` is declared at position `i` of the table
/// definition `sql`: its name starts there, after a comma and a space, and is
/// followed by a space and its type.
pub open spec fn column_at(sql: Seq<char>, column: Seq<char>, i: int) -> bool {
    &&& 2 <= i
    &&& i + column.len() < sql.len()
    &&& sql[i - 2] == ','
    &&& sql[i - 1] == ' '
    &&& sql.subrange(i, i + column.len() as int) == column
    &&& sql[i + column.len()] == ' '
}

/// Whether the table definition `sql` declares a column named `column`.
pub open spec fn declares_column(sql: Seq<char>, column: Seq<char>) -> bool {
    exists|i: int| column_at(sql, column, i)
}

/// The table of purchases that `open` creates has every column that a
/// purchase record writes: name, amount, bought_at, sold_at, status, datetime
/// and fees.
pub proof fn lemma_stock_table_has_purchase_columns()
    ensures
        declares_column(create_stock_sql(), "name"@),
        declares_column(create_stock_sql(), "amount"@),
        declares_column(create_stock_sql(), "bought_at"@),
        declares_column(create_stock_sql(), "sold_at"@),
        declares_column(create_stock_sql(), "status"@),
        declares_column(create_stock_sql(), "datetime"@),
        declares_column(create_stock_sql(), "fees"@),
{
    let sql = create_stock_sql();
    reveal_strlit(
        "CREATE TABLE IF NOT EXISTS stock (id INTEGER PRIMARY KEY AUTOINCREMENT, name TEXT NOT NULL, amount DECIMAL(10,2) NOT NULL, bought_at DECIMAL(10,2) NOT NULL, sold_at DECIMAL(10,2) NULL, status TEXT NOT NULL, datetime TEXT NOT NULL, fees DECIMAL(10,2) NOT NULL)",
    );
    reveal_strlit("name");
    reveal_strlit("amount");
    reveal_strlit("bought_at");
    reveal_strlit("sold_at");
    reveal_strlit("status");
    reveal_strlit("datetime");
    reveal_strlit("fees");
    assert(sql.subrange(72, 76) =~= "name"@);
    assert(column_at(sql, "name"@, 72));
    assert(sql.subrange(92, 98) =~= "amount"@);
    assert(column_at(sql, "amount"@, 92));
    assert(sql.subrange(123, 132) =~= "bought_at"@);
    assert(column_at(sql, "bought_at"@, 123));
    assert(sql.subrange(157, 164) =~= "sold_at"@);
    assert(column_at(sql, "sold_at"@, 157));
    assert(sql.subrange(185, 191) =~= "status"@);
    assert(column_at(sql, "status"@, 185));
    assert(sql.subrange(207, 215) =~= "datetime"@);
    assert(column_at(sql, "datetime"@, 207));
    assert(sql.subrange(231, 235) =~= "fees"@);
    assert(column_at(sql, "fees"@, 231));
}

/// The table of observed prices that `open` creates has every column that
/// `add_timestamp` writes: name, direction, value and datetime.
pub proof fn lemma_timestamp_table_has_price_columns()
    ensures
        declares_column(create_timestamp_sql(), "name"@),
        declares_column(create_timestamp_sql(), "direction"@),
        declares_column(create_timestamp_sql(), "value"@),
        declares_column(create_timestamp_sql(), "datetime"@),
{
    let sql = create_timestamp_sql();
    reveal_strlit(
        "CREATE TABLE IF NOT EXISTS timestamp (id INTEGER PRIMARY KEY AUTOINCREMENT, name TEXT NOT NULL, direction TEXT NOT NULL, value DECIMAL(10, 2) NOT NULL, datetime TEXT NOT NULL)",
    );
    reveal_strlit("name");
    reveal_strlit("direction");
    reveal_strlit("value");
    reveal_strlit("datetime");
    assert(sql.subrange(76, 80) =~= "name"@);
    assert(column_at(sql, "name"@, 76));
    assert(sql.subrange(96, 105) =~= "direction"@);
    assert(column_at(sql, "direction"@, 96));
    assert(sql.subrange(121, 126) =~= "value"@);
    assert(column_at(sql, "value"@, 121));
    assert(sql.subrange(152, 160) =~= "datetime"@);
    assert(column_at(sql, "datetime"@, 152));
}

/// Records the price `value` of `name` in `direction` observed at `datetime`.
pub fn add_timestamp(name: &str, direction: &str, value: &str, datetime: &str) -> (s: Statement)
    ensures
        statement_view(s) == (
            "INSERT INTO timestamp (name, direction, value, datetime) VALUES (:name, :direction, :value, :datetime)"@,
            seq![
                (":name"@, name@),
                (":direction"@, direction@),
                (":value"@, value@),
                (":datetime"@, datetime@),
            ],
        ),
{
    let mut params: Vec<Param> = Vec::new();
    params.push(param(":name", name));
    params.push(param(":direction", direction));
    params.push(param(":value", value));
    params.push(param(":datetime", datetime));
    let s = statement(
        "INSERT INTO timestamp (name, direction, value, datetime) VALUES (:name, :direction, :value, :datetime)",
        params,
    );
    assert(statement_view(s).1 =~= seq![
        (":name"@, name@),
        (":direction"@, direction@),
        (":value"@, value@),
        (":datetime"@, datetime@),
    ]);
    s
}

/// Records a purchase of `amount` of `name` at `bought_at` with `fees`, made
/// at `datetime`: not sold yet (sold at 0, status `BOUGHT`).
pub fn buy_stock(name: &str, amount: &str, bought_at: &str, fees: &str, datetime: &str) -> (s: Statement)
    ensures
        statement_view(s) == (
            "INSERT INTO stock (name, amount, bought_at, sold_at, status, datetime, fees) VALUES (:name, :amount, :bought_at, 0, :status, :datetime, :fees)"@,
            seq![
                (":name"@, name@),
                (":amount"@, amount@),
                (":bought_at"@, bought_at@),
                (":status"@, "BOUGHT"@),
                (":datetime"@, datetime@),
                (":fees"@, fees@),
            ],
        ),
{
    let mut params: Vec<Param> = Vec::new();
    params.push(param(":name", name));
    params.push(param(":amount", amount));
    params.push(param(":bought_at", bought_at));
    params.push(param(":status", "BOUGHT"));
    params.push(param(":datetime", datetime));
    params.push(param(":fees", fees));
    let s = statement(
        "INSERT INTO stock (name, amount, bought_at, sold_at, status, datetime, fees) VALUES (:name, :amount, :bought_at, 0, :status, :datetime, :fees)",
        params,
    );
    assert(statement_view(s).1 =~= seq![
        (":name"@, name@),
        (":amount"@, amount@),
        (":bought_at"@, bought_at@),
        (":status"@, "BOUGHT"@),
        (":datetime"@, datetime@),
        (":fees"@, fees@),
    ]);
    s
}

/// Marks the purchase `id` as sold for `total`.
pub fn set_sold_stock(id: &str, total: &str) -> (s: Statement)
    ensures
        statement_view(s) == (
            "UPDATE stock SET status='SOLD', sold_at=:sold_at WHERE id=:id"@,
            seq![(":id"@, id@), (":sold_at"@, total@)],
        ),
{
    let mut params: Vec<Param> = Vec::new();
    params.push(param(":id", id));
    params.push(param(":sold_at", total));
    let s = statement("UPDATE stock SET status='SOLD', sold_at=:sold_at WHERE id=:id", params);
    assert(statement_view(s).1 =~= seq![(":id"@, id@), (":sold_at"@, total@)]);
    s
}

/// The buy prices of `name` observed after `check_period`, oldest first.
pub fn last_sell_prices(check_period: &str, name: &str) -> (s: Statement)
    ensures
        statement_view(s) == (
            "SELECT * FROM timestamp WHERE datetime > :check_period AND direction = 'BUY_AT' AND name = :name ORDER BY id ASC"@,
            seq![(":check_period"@, check_period@), (":name"@, name@)],
        ),
{
    let mut params: Vec<Param> = Vec::new();
    params.push(param(":check_period", check_period));
    params.push(param(":name", name));
    let s = statement(
        "SELECT * FROM timestamp WHERE datetime > :check_period AND direction = 'BUY_AT' AND name = :name ORDER BY id ASC",
        params,
    );
    assert(statement_view(s).1 =~= seq![(":check_period"@, check_period@), (":name"@, name@)]);
    s
}

/// The latest price of `name` observed in `direction`.
pub fn get_last_price(name: &str, direction: &str) -> (s: Statement)
    ensures
        statement_view(s) == (
            "SELECT * FROM timestamp WHERE direction = :direction AND name = :name ORDER BY id DESC LIMIT 1"@,
            seq![(":name"@, name@), (":direction"@, direction@)],
        ),
{
    let mut params: Vec<Param> = Vec::new();
    params.push(param(":name", name));
    params.push(param(":direction", direction));
    let s = statement(
        "SELECT * FROM timestamp WHERE direction = :direction AND name = :name ORDER BY id DESC LIMIT 1",
        params,
    );
    assert(statement_view(s).1 =~= seq![(":name"@, name@), (":direction"@, direction@)]);
    s
}

/// The latest purchase of `name` that is not sold yet.
pub fn get_last_unsold_stock(name: &str) -> (s: Statement)
    ensures
        statement_view(s) == (
            "SELECT * FROM stock WHERE name = :name AND status = :status ORDER BY id DESC LIMIT 1"@,
            seq![(":name"@, name@), (":status"@, "BOUGHT"@)],
        ),
{
    let mut params: Vec<Param> = Vec::new();
    params.push(param(":name", name));
    params.push(param(":status", "BOUGHT"));
    let s = statement(
        "SELECT * FROM stock WHERE name = :name AND status = :status ORDER BY id DESC LIMIT 1",
        params,
    );
    assert(statement_view(s).1 =~= seq![(":name"@, name@), (":status"@, "BOUGHT"@)]);
    s
}

/// Every purchase of `name` that is not sold yet.
pub fn get_unsold_stock(name: &str) -> (s: Statement)
    ensures
        statement_view(s) == (
            "SELECT * FROM stock WHERE name = :name AND status = :status"@,
            seq![(":name"@, name@), (":status"@, "BOUGHT"@)],
        ),
{
    let mut params: Vec<Param> = Vec::new();
    params.push(param(":name", name));
    params.push(param(":status", "BOUGHT"));
    let s = statement("SELECT * FROM stock WHERE name = :name AND status = :status", params);
    assert(statement_view(s).1 =~= seq![(":name"@, name@), (":status"@, "BOUGHT"@)]);
    s
}

} // verus!
