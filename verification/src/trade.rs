//! Account data, the buying rules and the requests that place an order.
use vstd::prelude::*;
use crate::signing::{auth_headers, connect, connect_spec, header_pairs, request_view, Credentials, SignedRequest, Verb};
use crate::text::push_char;

verus! {

/// The answer to a request for the current user.
#[derive(Debug)]
pub struct Response {
    pub data: Data,
}

/// The current user.
#[derive(Debug)]
pub struct Data {
    pub id: String,
    pub name: String,
    pub email: String,
    pub referral_money: ReferralMoney,
}

/// The user's referral bonus.
#[derive(Debug)]
pub struct ReferralMoney {
    pub amount: String,
    pub currency: String,
    pub referral_threshold: String,
}

/// One account of the user.
#[derive(Debug)]
pub struct Account {
    pub id: String,
    pub name: String,
    pub balance: AccountBalance,
}

/// The balance of an account.
#[derive(Debug)]
pub struct AccountBalance {
    pub amount: String,
    pub currency: String,
}

/// The answer to a request for an account.
#[derive(Debug)]
pub struct DataAccount {
    pub data: Account,
}

/// The character contents of an optional string.
pub open spec fn opt_text(o: Option<String>) -> Option<Seq<char>> {
    match o {
        Some(s) => Some(s@),
        None => None,
    }
}

/// The path of one account.
pub open spec fn account_path(account_id: Seq<char>) -> Seq<char> {
    "/v2/accounts/"@ + account_id
}

/// The signed request that fetches the account `account_id`.
pub fn get_account(account_id: &str, timestamp: u64, credentials: &Credentials) -> (request: SignedRequest)
    ensures
        request_view(request) == connect_spec(
            "GET"@,
            account_path(account_id@),
            ""@,
            timestamp,
            credentials.api_key@,
            credentials.client_secret@,
        ),
        request.verb == Verb::Get,
        request.url@ == "https://api.coinbase.com"@ + "/v2/accounts/"@ + account_id@,
        header_pairs(request.headers@) == auth_headers(
            timestamp,
            "GET"@,
            "/v2/accounts/"@ + account_id@,
            ""@,
            credentials.api_key@,
            credentials.client_secret@,
        ),
{
    let mut path = String::from_str("/v2/accounts/");
    path.append(account_id);
    connect("GET", path.as_str(), "", timestamp, credentials)
}

/// A rule of 71 `=` signs.
pub open spec fn rule_line() -> Seq<char> {
    Seq::new(71, |i: int| '=')
}

/// The lines that greet the user at start-up: two blank lines, a rule,
/// the user's name, the user's id, and a rule.
pub open spec fn welcome_spec(name: Seq<char>, id: Seq<char>) -> Seq<Seq<char>> {
    seq!["\n\n"@, rule_line(), "Welcome "@ + name, "ID : "@ + id, rule_line()]
}

fn rule() -> (s: String)
    ensures
        s@ == rule_line(),
{
    let mut s = String::new();
    let mut i: usize = 0;
    while i < 71
        invariant
            i <= 71,
            s@ == Seq::new(i as nat, |j: int| '='),
        decreases 71 - i,
    {
        push_char(&mut s, '=');
        i = i + 1;
        assert(s@ =~= Seq::new(i as nat, |j: int| '='));
    }
    s
}

/// The lines that `init` prints for the current user.
pub fn welcome_lines(user: &Data) -> (lines: Vec<String>)
    ensures
        crate::text::views(lines@) == welcome_spec(user.name@, user.id@),
{
    let mut lines: Vec<String> = Vec::new();
    lines.push(String::from_str("\n\n"));
    lines.push(rule());
    let mut hello = String::from_str("Welcome ");
    hello.append(user.name.as_str());
    lines.push(hello);
    let mut id = String::from_str("ID : ");
    id.append(user.id.as_str());
    lines.push(id);
    lines.push(rule());
    assert(crate::text::views(lines@) =~= welcome_spec(user.name@, user.id@));
    lines
}

/// What to do about one crypto currency.
#[derive(Clone, Copy, Debug, PartialEq, Eq, Structural)]
pub enum BuyDecision {
    /// Do not buy.
    Hold,
    /// Buy, because the price fell below the threshold of the last purchase
    /// that is not sold yet; no further currency is considered this round.
    BelowLastPurchase,
    /// Buy, because the price fell below the threshold of the recent price
    /// at this index, the first one that triggers.
    BelowRecentPrice(usize),
}

/// Decides whether to buy a currency. `below_last_unsold` tells whether the
/// current price is below the threshold of the last purchase not sold yet, if
/// there is one; `below_recent` tells it for each recent price, oldest first.
pub fn should_we_buy(below_last_unsold: Option<bool>, below_recent: &Vec<bool>) -> (decision: BuyDecision)
    ensures
        match below_last_unsold {
            Some(b) => decision == if b { BuyDecision::BelowLastPurchase } else { BuyDecision::Hold },
            None => match decision {
                BuyDecision::BelowRecentPrice(i) => {
                    &&& i < below_recent@.len()
                    &&& below_recent@[i as int]
                    &&& forall|j: int| 0 <= j < i ==> !#[trigger] below_recent@[j]
                },
                BuyDecision::Hold => forall|j: int| 0 <= j < below_recent@.len() ==> !#[trigger] below_recent@[j],
                BuyDecision::BelowLastPurchase => false,
            },
        },
{
    match below_last_unsold {
        Some(b) => {
            if b {
                BuyDecision::BelowLastPurchase
            } else {
                BuyDecision::Hold
            }
        },
        None => {
            let n = below_recent.len();
            let mut i: usize = 0;
            while i < n
                invariant
                    i <= n,
                    n == below_recent@.len(),
                    below_last_unsold is None,
                    forall|j: int| 0 <= j < i ==> !#[trigger] below_recent@[j],
                decreases n - i,
            {
                if below_recent[i] {
                    return BuyDecision::BelowRecentPrice(i);
                }
                i = i + 1;
            }
            BuyDecision::Hold
        },
    }
}

/// Whether the round goes on to the next currency after this decision: it
/// ends after a buy against the last unsold purchase.
pub fn continue_round(decision: BuyDecision) -> (go_on: bool)
    ensures
        go_on == (decision != BuyDecision::BelowLastPurchase),
{
    decision != BuyDecision::BelowLastPurchase
}

/// The number of currencies a round examines when `decisions` are the
/// decisions for its currencies in order: up to and including the first buy
/// against the last unsold purchase, or all of them.
pub open spec fn round_length(decisions: Seq<BuyDecision>) -> nat
    decreases decisions.len(),
{
    if decisions.len() == 0 {
        0
    } else if decisions[0] == BuyDecision::BelowLastPurchase {
        1
    } else {
        1 + round_length(decisions.drop_first())
    }
}

/// The round examines every currency up to the first buy against the last
/// unsold purchase and none after it: the currencies before the last one it
/// examines all let it go on, and it stops early only after such a buy.
pub proof fn lemma_round_length(decisions: Seq<BuyDecision>)
    ensures
        round_length(decisions) <= decisions.len(),
        forall|j: int| 0 <= j < round_length(decisions) - 1 ==> #[trigger] decisions[j] != BuyDecision::BelowLastPurchase,
        round_length(decisions) < decisions.len() ==> round_length(decisions) > 0
            && decisions[round_length(decisions) - 1] == BuyDecision::BelowLastPurchase,
    decreases decisions.len(),
{
    if decisions.len() > 0 && decisions[0] != BuyDecision::BelowLastPurchase {
        let rest = decisions.drop_first();
        lemma_round_length(rest);
        assert forall|j: int| 0 <= j < round_length(decisions) - 1 implies #[trigger] decisions[j]
            != BuyDecision::BelowLastPurchase by {
            if j > 0 {
                assert(decisions[j] == rest[j - 1]);
            }
        }
        if round_length(decisions) < decisions.len() {
            assert(decisions[round_length(decisions) - 1] == rest[round_length(rest) - 1]);
        }
    }
}

/// How many currencies a round examines, given their decisions in order.
pub fn examined_count(decisions: &Vec<BuyDecision>) -> (count: usize)
    ensures
        count == round_length(decisions@),
{
    let n = decisions.len();
    let mut i: usize = n;
    let mut count: usize = 0;
    while i > 0
        invariant
            i <= n,
            n == decisions@.len(),
            count == round_length(decisions@.skip(i as int)),
            count <= n - i,
        decreases i,
    {
        i = i - 1;
        let ghost tail = decisions@.skip(i as int);
        assert(tail.drop_first() =~= decisions@.skip(i + 1));
        assert(tail[0] == decisions@[i as int]);
        if decisions[i] == BuyDecision::BelowLastPurchase {
            count = 1;
        } else {
            count = count + 1;
        }
    }
    assert(decisions@.skip(0) =~= decisions@);
    count
}

/// The lowercase form of a text, as `str::to_lowercase` computes it.
pub uninterp spec fn lowercase(s: Seq<char>) -> Seq<char>;

/// `str::to_lowercase`. Claimed: the result is `lowercase` of the text; the
/// Unicode case mapping itself is left unstated.
#[verifier::external_body]
fn to_lowercase(s: &str) -> (lower: String)
    ensures
        lower@ == lowercase(s@),
{
    s.to_lowercase()
}

/// The JSON body of a buy order whose amount is written `amount`.
pub open spec fn buy_body(amount: Seq<char>) -> Seq<char> {
    "{\"amount\":"@ + amount + ",\"currency\":\"EUR\"}"@
}

/// The JSON body of a buy order for the amount written `amount` (a JSON
/// number) in euros.
pub fn buy_parameters_json(amount: &str) -> (body: String)
    ensures
        body@ == buy_body(amount@),
{
    let mut body = String::from_str("{\"amount\":");
    body.append(amount);
    body.append(",\"currency\":\"EUR\"}");
    body
}

/// The name of the setting that holds the account id for `currency`.
pub open spec fn account_variable_spec(currency: Seq<char>) -> Seq<char> {
    "account_id_"@ + lowercase(currency)
}

/// The first step of a purchase.
#[derive(Debug)]
pub enum BuyPlan {
    /// The balance would fall below the minimum: nothing is bought.
    Skip,
    /// Place an order with this body on the account named by this setting.
    Order { account_variable: String, body: String },
}

/// Plans the purchase of `currency` for the amount written `amount` (a JSON
/// number) in euros. `affordable` tells whether the balance less the amount
/// stays at or above the minimum kept on the account.
pub fn buy(currency: &str, affordable: bool, amount: &str) -> (plan: BuyPlan)
    ensures
        match plan {
            BuyPlan::Skip => !affordable,
            BuyPlan::Order { account_variable, body } => {
                &&& affordable
                &&& account_variable@ == account_variable_spec(currency@)
                &&& account_variable@ == "account_id_"@ + lowercase(currency@)
                &&& body@ == buy_body(amount@)
                &&& body@ == "{\"amount\":"@ + amount@ + ",\"currency\":\"EUR\"}"@
            },
        },
{
    if !affordable {
        return BuyPlan::Skip;
    }
    let body = buy_parameters_json(amount);
    let mut account_variable = String::from_str("account_id_");
    let lower = to_lowercase(currency);
    account_variable.append(lower.as_str());
    BuyPlan::Order { account_variable, body }
}

/// The account setting of a currency is `account_id_` followed by the
/// currency's lowercase form, whatever the symbol's length: two currencies
/// share a setting exactly when their lowercase forms agree.
pub proof fn lemma_account_variable(currency: Seq<char>, other: Seq<char>)
    ensures
        account_variable_spec(currency) == "account_id_"@ + lowercase(currency),
        account_variable_spec(currency) == account_variable_spec(other) <==> lowercase(currency)
            == lowercase(other),
{
    let p = "account_id_"@;
    if account_variable_spec(currency) == account_variable_spec(other) {
        assert(lowercase(currency) =~= account_variable_spec(currency).skip(p.len() as int));
        assert(lowercase(other) =~= account_variable_spec(other).skip(p.len() as int));
    }
}

/// The path that buy orders on an account are posted to.
pub open spec fn buys_path(account_id: Seq<char>) -> Seq<char> {
    "/v2/accounts/"@ + account_id + "/buys"@
}

/// The signed request that places a buy order with `body` on `account_id`.
pub fn buy_request(account_id: &str, body: &str, timestamp: u64, credentials: &Credentials) -> (request: SignedRequest)
    ensures
        request_view(request) == connect_spec(
            "POST"@,
            buys_path(account_id@),
            body@,
            timestamp,
            credentials.api_key@,
            credentials.client_secret@,
        ),
        request.verb == Verb::Post,
        request.url@ == "https://api.coinbase.com"@ + "/v2/accounts/"@ + account_id@ + "/buys"@,
        header_pairs(request.headers@) == auth_headers(
            timestamp,
            "POST"@,
            "/v2/accounts/"@ + account_id@ + "/buys"@,
            body@,
            credentials.api_key@,
            credentials.client_secret@,
        ),
{
    let mut path = String::from_str("/v2/accounts/");
    path.append(account_id);
    path.append("/buys");
    proof {
        reveal_strlit("GET");
        reveal_strlit("POST");
        assert("POST"@ != "GET"@) by {
            assert("POST"@[0] != "GET"@[0]);
        }
    }
    connect("POST", path.as_str(), body, timestamp, credentials)
}

/// Buy orders go to the account's own path: `/v2/accounts/`, the account id
/// with every character kept, then `/buys`; so the id can be read back from
/// the path, and different accounts get different paths.
pub proof fn lemma_buys_path(account_id: Seq<char>, other_id: Seq<char>)
    ensures
        buys_path(account_id) == "/v2/accounts/"@ + account_id + "/buys"@,
        buys_path(account_id).subrange(13, 13 + account_id.len() as int) == account_id,
        buys_path(account_id) == buys_path(other_id) ==> account_id == other_id,
{
    reveal_strlit("/v2/accounts/");
    reveal_strlit("/buys");
    let p = buys_path(account_id);
    assert(p.subrange(13, 13 + account_id.len() as int) =~= account_id);
    if p == buys_path(other_id) {
        assert(buys_path(other_id).len() == 18 + other_id.len());
        assert(p.len() == 18 + account_id.len());
        assert(buys_path(other_id).subrange(13, 13 + other_id.len() as int) =~= other_id);
    }
}

/// The UTC calendar day, written `YYYY-MM-DD`, of the moment `days` days
/// before the moment `now` seconds after the Unix epoch, if chrono can
/// represent the span and both moments.
pub uninterp spec fn utc_day_before(now: int, days: int) -> Option<Seq<char>>;

/// chrono: `DateTime::from_timestamp(now, 0)`, less `TimeDelta::try_days(days)`
/// by `checked_sub_signed`, formatted with `%F`; `None` where one of them
/// fails. Claimed: the result is `utc_day_before(now, days)`; which spans and
/// moments chrono represents, and how it writes a day, are left unstated.
#[verifier::external_body]
fn chrono_day_before(now: i64, days: i64) -> (day: Option<String>)
    ensures
        opt_text(day) == utc_day_before(now as int, days as int),
{
    let moment = match chrono::DateTime::from_timestamp(now, 0) {
        Some(moment) => moment,
        None => return None,
    };
    let span = match chrono::TimeDelta::try_days(days) {
        Some(span) => span,
        None => return None,
    };
    match moment.checked_sub_signed(span) {
        Some(start) => Some(start.format("%F").to_string()),
        None => None,
    }
}

/// The UTC day `days` days before the moment `now` (seconds since the Unix
/// epoch): the start of the period over which recent prices are compared.
/// `None` when chrono cannot represent the span or the moments.
pub fn check_period_start(now: i64, days: i64) -> (day: Option<String>)
    ensures
        opt_text(day) == utc_day_before(now as int, days as int),
{
    chrono_day_before(now, days)
}

} // verus!
