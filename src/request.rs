//! Construction of the aggregates request: query string, URL, headers and
//! the name of the file each page is saved under.
use vstd::prelude::*;
use vstd::string::StringExecFns;
use crate::text::{decimal, push_decimal};

verus! {

/// `key=value` for one query parameter.
pub open spec fn param_text(p: (Seq<char>, Seq<char>)) -> Seq<char> {
    p.0 + seq!['='] + p.1
}

/// The query string of `ps`: the `key=value` text of each parameter whose value
/// is non-empty, in the given order, separated by `&`. Parameters with an empty
/// value are left out entirely.
pub open spec fn query_text(ps: Seq<(Seq<char>, Seq<char>)>) -> Seq<char>
    decreases ps.len(),
{
    if ps.len() == 0 {
        Seq::empty()
    } else {
        let prev = query_text(ps.drop_last());
        let p = ps.last();
        if p.1.len() == 0 {
            prev
        } else if prev.len() == 0 {
            param_text(p)
        } else {
            prev + seq!['&'] + param_text(p)
        }
    }
}

/// The character sequences of a list of borrowed key/value pairs.
pub open spec fn pairs_view(ps: Seq<(&str, &str)>) -> Seq<(Seq<char>, Seq<char>)> {
    ps.map_values(|p: (&str, &str)| (p.0@, p.1@))
}

/// Joins the parameters with a non-empty value as `key=value` pairs separated
/// by `&`, keeping their order.
pub fn build_query_string(params: &[(&str, &str)]) -> (r: String)
    ensures
        r@ == query_text(pairs_view(params@)),
{
    let ghost all = pairs_view(params@);
    let mut out = String::new();
    let mut i: usize = 0;
    while i < params.len()
        invariant
            i <= params@.len(),
            all == pairs_view(params@),
            out@ == query_text(all.take(i as int)),
        decreases params@.len() - i,
    {
        let (key, value) = params[i];
        proof {
            reveal_strlit("=");
            reveal_strlit("&");
            assert(all.take(i + 1).drop_last() =~= all.take(i as int));
            assert(all.take(i + 1).last() == (key@, value@));
        }
        if !value.is_empty() {
            if out.unicode_len() > 0 {
                out.append("&");
            }
            out.append(key);
            out.append("=");
            out.append(value);
        }
        i = i + 1;
        assert(out@ =~= query_text(all.take(i as int)));
    }
    assert(all.take(i as int) =~= all);
    out
}

/// The text of an optional parameter value: empty when it is absent.
pub open spec fn value_or_empty(v: Option<&str>) -> Seq<char> {
    match v {
        Some(s) => s@,
        None => Seq::empty(),
    }
}

/// The query string of the aggregates request for the options `adjusted`,
/// `sort` and `limit`, in that order; an absent or empty option is left out.
pub fn aggs_query(adjusted: Option<&str>, sort: Option<&str>, limit: &str) -> (r: String)
    ensures
        r@ == query_text(
            seq![
                ("adjusted"@, value_or_empty(adjusted)),
                ("sort"@, value_or_empty(sort)),
                ("limit"@, limit@),
            ],
        ),
{
    let adjusted_value = match adjusted {
        Some(s) => s,
        None => "",
    };
    let sort_value = match sort {
        Some(s) => s,
        None => "",
    };
    let params = [("adjusted", adjusted_value), ("sort", sort_value), ("limit", limit)];
    let r = build_query_string(&params);
    proof {
        reveal_strlit("");
        assert(params@.len() == 3);
        assert(params@[0] == ("adjusted", adjusted_value));
        assert(params@[1] == ("sort", sort_value));
        assert(params@[2] == ("limit", limit));
        assert(adjusted_value@ == value_or_empty(adjusted));
        assert(sort_value@ == value_or_empty(sort));
        assert(pairs_view(params@)[0] == ("adjusted"@, value_or_empty(adjusted)));
        assert(pairs_view(params@) =~= seq![
            ("adjusted"@, value_or_empty(adjusted)),
            ("sort"@, value_or_empty(sort)),
            ("limit"@, limit@),
        ]);
    }
    r
}

/// The host and path prefix of the aggregates endpoint.
pub open spec fn aggs_url_text(
    ticker: Seq<char>,
    multiplier: nat,
    timespan: Seq<char>,
    from: Seq<char>,
    to: Seq<char>,
    query: Seq<char>,
) -> Seq<char> {
    "https://api.polygon.io/v2/aggs/ticker/"@ + ticker + "/range/"@ + decimal(multiplier) + "/"@
        + timespan + "/"@ + from + "/"@ + to + "?"@ + query
}

/// The URL of the first page of aggregates for `ticker` between `from` and
/// `to`, in buckets of `multiplier` × `timespan`, with the query string `query`.
pub fn aggs_url(
    ticker: &str,
    multiplier: u64,
    timespan: &str,
    from: &str,
    to: &str,
    query: &str,
) -> (r: String)
    ensures
        r@ == aggs_url_text(ticker@, multiplier as nat, timespan@, from@, to@, query@),
{
    let mut r = String::from_str("https://api.polygon.io/v2/aggs/ticker/");
    r.append(ticker);
    r.append("/range/");
    push_decimal(&mut r, multiplier);
    r.append("/");
    r.append(timespan);
    r.append("/");
    r.append(from);
    r.append("/");
    r.append(to);
    r.append("?");
    r.append(query);
    assert(r@ =~= aggs_url_text(ticker@, multiplier as nat, timespan@, from@, to@, query@));
    r
}

/// The value of the `Authorization` header for the API key `key`.
pub open spec fn bearer_text(key: Seq<char>) -> Seq<char> {
    "Bearer "@ + key
}

/// `Bearer <key>`, the value of the `Authorization` header.
pub fn bearer_value(key: &str) -> (r: String)
    ensures
        r@ == bearer_text(key@),
{
    let mut r = String::from_str("Bearer ");
    r.append(key);
    r
}

/// The value of the `Accept` header: responses are requested as JSON.
pub fn accept_value() -> (r: &'static str)
    ensures
        r@ == "application/json"@,
{
    "application/json"
}

/// `{ticker}_{from}_{to}_page_{page}.json`, the file a page is saved under.
pub open spec fn page_file_text(ticker: Seq<char>, from: Seq<char>, to: Seq<char>, page: nat) -> Seq<char> {
    ticker + "_"@ + from + "_"@ + to + "_page_"@ + decimal(page) + ".json"@
}

/// The name of the file that page number `page` is saved under.
pub fn page_filename(ticker: &str, from: &str, to: &str, page: u64) -> (r: String)
    ensures
        r@ == page_file_text(ticker@, from@, to@, page as nat),
{
    let mut r = String::from_str(ticker);
    r.append("_");
    r.append(from);
    r.append("_");
    r.append(to);
    r.append("_page_");
    push_decimal(&mut r, page);
    r.append(".json");
    assert(r@ =~= page_file_text(ticker@, from@, to@, page as nat));
    r
}

} // verus!
