//! The currencies that the bot follows and the price requests made for them.
use vstd::prelude::*;
use crate::text::{split_commas, split_on_commas, views};

verus! {

/// The currency symbols listed in `symbols`, separated by commas.
pub fn get_cryptos(symbols: &str) -> (cryptos: Vec<String>)
    ensures
        views(cryptos@) == split_commas(symbols@),
{
    split_on_commas(symbols)
}

/// A request for the current buy or sell price of one currency in euros.
#[derive(Debug)]
pub struct PriceQuery {
    /// The currency symbol.
    pub crypto: String,
    /// The direction recorded with the price: `BUY_AT` or `SELL_AT`.
    pub direction: String,
    /// The address of the price.
    pub url: String,
}

/// The address of the `side` (`buy` or `sell`) price of `crypto` in euros.
pub open spec fn price_url(crypto: Seq<char>, side: Seq<char>) -> Seq<char> {
    "https://api.coinbase.com/v2/prices/"@ + crypto + "-EUR/"@ + side
}

/// The address, direction and currency of a price request.
pub open spec fn query_view(q: PriceQuery) -> (Seq<char>, Seq<char>, Seq<char>) {
    (q.url@, q.direction@, q.crypto@)
}

/// The price requests for one side, one per currency in order.
pub open spec fn side_plan(cryptos: Seq<Seq<char>>, side: Seq<char>, direction: Seq<char>) -> Seq<(Seq<char>, Seq<char>, Seq<char>)> {
    Seq::new(cryptos.len(), |i: int| (price_url(cryptos[i], side), direction, cryptos[i]))
}

/// The price requests for all currencies: every buy price, then every sell price.
pub open spec fn price_plan(cryptos: Seq<Seq<char>>) -> Seq<(Seq<char>, Seq<char>, Seq<char>)> {
    side_plan(cryptos, "buy"@, "BUY_AT"@) + side_plan(cryptos, "sell"@, "SELL_AT"@)
}

/// Every price request names the whole currency symbol: for `n` currencies
/// there are `2 * n` requests; the `i`-th asks for the buy price at
/// `https://api.coinbase.com/v2/prices/<symbol>-EUR/buy` and is recorded as
/// `BUY_AT`, and the `n + i`-th asks for the sell price at
/// `https://api.coinbase.com/v2/prices/<symbol>-EUR/sell` and is recorded as
/// `SELL_AT`, where `<symbol>` is the `i`-th symbol, every character of it.
pub proof fn lemma_price_plan_urls(cryptos: Seq<Seq<char>>)
    ensures
        price_plan(cryptos).len() == 2 * cryptos.len(),
        forall|i: int|
            #![trigger price_plan(cryptos)[i]]
            0 <= i < cryptos.len() ==> price_plan(cryptos)[i] == (
                "https://api.coinbase.com/v2/prices/"@ + cryptos[i] + "-EUR/"@ + "buy"@,
                "BUY_AT"@,
                cryptos[i],
            ),
        forall|i: int|
            #![trigger price_plan(cryptos)[i]]
            cryptos.len() <= i < 2 * cryptos.len() ==> price_plan(cryptos)[i] == (
                "https://api.coinbase.com/v2/prices/"@ + cryptos[i - cryptos.len()] + "-EUR/"@ + "sell"@,
                "SELL_AT"@,
                cryptos[i - cryptos.len()],
            ),
{
    let n = cryptos.len() as int;
    let buys = side_plan(cryptos, "buy"@, "BUY_AT"@);
    let sells = side_plan(cryptos, "sell"@, "SELL_AT"@);
    assert forall|i: int| 0 <= i < n implies #[trigger] price_plan(cryptos)[i] == buys[i] by {}
    assert forall|i: int| n <= i < 2 * n implies #[trigger] price_plan(cryptos)[i] == sells[i - n] by {}
}

fn push_side(queries: &mut Vec<PriceQuery>, cryptos: &Vec<String>, side: &str, direction: &str)
    ensures
        final(queries)@.map_values(|q: PriceQuery| query_view(q))
            == old(queries)@.map_values(|q: PriceQuery| query_view(q)) + side_plan(views(cryptos@), side@, direction@),
{
    let ghost start = old(queries)@.map_values(|q: PriceQuery| query_view(q));
    let n = cryptos.len();
    let mut i: usize = 0;
    while i < n
        invariant
            i <= n,
            n == cryptos@.len(),
            queries@.map_values(|q: PriceQuery| query_view(q))
                =~= start + side_plan(views(cryptos@.take(i as int)), side@, direction@),
        decreases n - i,
    {
        let ghost before = queries@;
        let crypto = cryptos[i].as_str();
        let mut url = String::from_str("https://api.coinbase.com/v2/prices/");
        url.append(crypto);
        url.append("-EUR/");
        url.append(side);
        let q = PriceQuery {
            crypto: String::from_str(crypto),
            direction: String::from_str(direction),
            url,
        };
        assert(query_view(q) == (price_url(cryptos@[i as int]@, side@), direction@, cryptos@[i as int]@));
        queries.push(q);
        assert(queries@.map_values(|q: PriceQuery| query_view(q))
            =~= before.map_values(|q: PriceQuery| query_view(q)).push(query_view(q)));
        assert(views(cryptos@.take(i + 1)) =~= views(cryptos@.take(i as int)).push(cryptos@[i as int]@));
        assert(side_plan(views(cryptos@.take(i + 1)), side@, direction@)
            =~= side_plan(views(cryptos@.take(i as int)), side@, direction@).push(query_view(q)));
        i = i + 1;
    }
    assert(cryptos@.take(n as int) =~= cryptos@);
}

/// The price requests for the currencies `cryptos`: each one's buy price,
/// recorded as `BUY_AT`, then each one's sell price, recorded as `SELL_AT`.
pub fn fetch_crypto(cryptos: &Vec<String>) -> (queries: Vec<PriceQuery>)
    ensures
        queries@.map_values(|q: PriceQuery| query_view(q)) == price_plan(views(cryptos@)),
        queries@.len() == 2 * cryptos@.len(),
        forall|i: int|
            #![trigger queries@[i]]
            0 <= i < cryptos@.len() ==> {
                &&& queries@[i].url@ == "https://api.coinbase.com/v2/prices/"@ + cryptos@[i]@ + "-EUR/"@ + "buy"@
                &&& queries@[i].direction@ == "BUY_AT"@
                &&& queries@[i].crypto@ == cryptos@[i]@
            },
        forall|i: int|
            #![trigger queries@[i]]
            cryptos@.len() <= i < 2 * cryptos@.len() ==> {
                &&& queries@[i].url@ == "https://api.coinbase.com/v2/prices/"@ + cryptos@[i - cryptos@.len()]@
                    + "-EUR/"@ + "sell"@
                &&& queries@[i].direction@ == "SELL_AT"@
                &&& queries@[i].crypto@ == cryptos@[i - cryptos@.len()]@
            },
{
    let mut queries: Vec<PriceQuery> = Vec::new();
    assert(queries@.map_values(|q: PriceQuery| query_view(q)) =~= Seq::empty());
    push_side(&mut queries, cryptos, "buy", "BUY_AT");
    push_side(&mut queries, cryptos, "sell", "SELL_AT");
    assert(queries@.map_values(|q: PriceQuery| query_view(q)) =~= price_plan(views(cryptos@)));
    proof {
        let plan = price_plan(views(cryptos@));
        lemma_price_plan_urls(views(cryptos@));
        assert forall|i: int| 0 <= i < queries@.len() implies query_view(#[trigger] queries@[i]) == plan[i] by {
            assert(queries@.map_values(|q: PriceQuery| query_view(q))[i] == query_view(queries@[i]));
        }
    }
    queries
}

/// The price requests for the currencies listed in `symbols`.
pub fn get_values(symbols: &str) -> (queries: Vec<PriceQuery>)
    ensures
        queries@.map_values(|q: PriceQuery| query_view(q)) == price_plan(split_commas(symbols@)),
        queries@.len() == 2 * split_commas(symbols@).len(),
        forall|i: int|
            #![trigger queries@[i]]
            0 <= i < split_commas(symbols@).len() ==> {
                &&& queries@[i].url@ == "https://api.coinbase.com/v2/prices/"@ + split_commas(symbols@)[i] + "-EUR/"@
                    + "buy"@
                &&& queries@[i].direction@ == "BUY_AT"@
                &&& queries@[i].crypto@ == split_commas(symbols@)[i]
            },
        forall|i: int|
            #![trigger queries@[i]]
            split_commas(symbols@).len() <= i < 2 * split_commas(symbols@).len() ==> {
                &&& queries@[i].url@ == "https://api.coinbase.com/v2/prices/"@ + split_commas(symbols@)[i
                    - split_commas(symbols@).len()] + "-EUR/"@ + "sell"@
                &&& queries@[i].direction@ == "SELL_AT"@
                &&& queries@[i].crypto@ == split_commas(symbols@)[i - split_commas(symbols@).len()]
            },
{
    let cryptos = get_cryptos(symbols);
    fetch_crypto(&cryptos)
}

} // verus!
