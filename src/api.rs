use vstd::prelude::*;
use vstd::string::StringExecFns;

verus! {

/// Client settings of the token volume service.
#[derive(Debug)]
pub struct FlipsideApi {
    pub api_key: String,
    pub api_url: String,
}

impl FlipsideApi {
    pub fn new(api_key: String, api_url: String) -> (r: FlipsideApi)
        ensures
            r.api_key@ == api_key@,
            r.api_url@ == api_url@,
    {
        FlipsideApi { api_key, api_url }
    }

    /// The address that answers with the trading volume of a token.
    pub fn volume_url(&self, token_mint: &str) -> (r: String)
        ensures
            r@ == self.api_url@ + "/volume?token_mint="@ + token_mint@,
    {
        let mut url = self.api_url.clone();
        url.append("/volume?token_mint=");
        url.append(token_mint);
        url
    }
}

/// Client settings of the token price service.
#[derive(Debug)]
pub struct ParsecApi {
    pub api_key: String,
    pub api_url: String,
}

impl ParsecApi {
    pub fn new(api_key: String, api_url: String) -> (r: ParsecApi)
        ensures
            r.api_key@ == api_key@,
            r.api_url@ == api_url@,
    {
        ParsecApi { api_key, api_url }
    }

    /// The address that answers with the prices of all tokens.
    pub fn prices_url(&self) -> (r: String)
        ensures
            r@ == self.api_url@ + "/prices"@,
    {
        let mut url = self.api_url.clone();
        url.append("/prices");
        url
    }
}

/// Client settings of the indexing service that lists a trader's trades.
#[derive(Debug)]
pub struct TheGraphApi {
    pub api_url: String,
}

impl TheGraphApi {
    pub fn new(api_url: String) -> (r: TheGraphApi)
        ensures
            r.api_url@ == api_url@,
    {
        TheGraphApi { api_url }
    }

    /// The query for the trades of a trader: their id, amount and token.
    pub fn trader_transactions_query(&self, trader_account: &str) -> (r: String)
        ensures
            r@ == "{ traderTransactions(trader: \""@ + trader_account@ + "\") { id tokenAmount tokenMint } }"@,
    {
        let mut query = String::from_str("{ traderTransactions(trader: \"");
        query.append(trader_account);
        query.append("\") { id tokenAmount tokenMint } }");
        query
    }
}

/// `parts` joined with `sep` between each two.
pub open spec fn joined(parts: Seq<Seq<char>>, sep: Seq<char>) -> Seq<char>
    decreases parts.len(),
{
    if parts.len() == 0 {
        Seq::empty()
    } else if parts.len() == 1 {
        parts[0]
    } else {
        joined(parts.drop_last(), sep) + sep + parts.last()
    }
}

/// The address that answers with the dollar prices of the given coins.
pub fn coingecko_price_url(symbols: &Vec<String>) -> (r: String)
    ensures
        r@ == "https://api.coingecko.com/api/v3/simple/price?ids="@
            + joined(symbols@.map_values(|s: String| s@), ","@) + "&vs_currencies=usd"@,
{
    let ghost parts = symbols@.map_values(|s: String| s@);
    let mut ids = String::new();
    let n = symbols.len();
    for i in 0..n
        invariant
            n == symbols@.len(),
            parts == symbols@.map_values(|s: String| s@),
            ids@ == joined(parts.subrange(0, i as int), ","@),
    {
        proof {
            assert(parts.subrange(0, i + 1).drop_last() =~= parts.subrange(0, i as int));
            assert(parts.subrange(0, i + 1).last() == symbols@[i as int]@);
        }
        if i > 0 {
            ids.append(",");
        }
        ids.append(symbols[i].as_str());
        proof {
            if i == 0 {
                assert(parts.subrange(0, 1).len() == 1);
                assert(ids@ =~= parts.subrange(0, 1)[0]);
            }
        }
    }
    proof {
        assert(parts.subrange(0, n as int) =~= parts);
    }
    let mut url = String::from_str("https://api.coingecko.com/api/v3/simple/price?ids=");
    url.append(ids.as_str());
    url.append("&vs_currencies=usd");
    url
}

/// The address that answers with the market sentiment of a coin.
pub fn lunarcrush_sentiment_url(symbol: &str) -> (r: String)
    ensures
        r@ == "https://lunarcrush.com/api3/coinsentiment?symbol="@ + symbol@,
{
    let mut url = String::from_str("https://lunarcrush.com/api3/coinsentiment?symbol=");
    url.append(symbol);
    url
}

} // verus!
