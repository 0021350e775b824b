//! URLs and form bodies, which are the `url` crate's work.
//!
//! The crate parses and serialises. Its results are named here, and beyond
//! their names only this is said of them: a URL with parameters is had
//! exactly where the URL alone parses. What the library proves is which
//! texts and which pairs it hands over, and what it does with what comes
//! back.

use vstd::prelude::*;
use crate::text::{byte_len, byte_len_of, same_text};

verus! {

/// `url::Url`, a parsed URL; nothing of its inside is seen here.
#[verifier::external_type_specification]
#[verifier::external_body]
pub struct ExUrl(url::Url);

/// `url::ParseError`, the reason why a text is no URL; it is not looked
/// into.
#[verifier::external_type_specification]
#[verifier::external_body]
pub struct ExUrlParseError(url::ParseError);

/// The name/value pairs of the query of `url`, decoded, in their order.
pub uninterp spec fn url_query(url: url::Url) -> Seq<(Seq<char>, Seq<char>)>;

/// The query pairs of the absolute URL that `text` parses as, or `None`
/// where it is none.
pub uninterp spec fn parsed_query(text: Seq<char>) -> Option<Seq<(Seq<char>, Seq<char>)>>;

/// The text of the absolute URL that `base` parses as, with `params`
/// appended to its query, or `None` where `base` is no absolute URL.
pub uninterp spec fn url_with_params(
    base: Seq<char>,
    params: Seq<(Seq<char>, Seq<char>)>,
) -> Option<Seq<char>>;

/// The pairs serialised as `application/x-www-form-urlencoded`.
pub uninterp spec fn form_encoded(pairs: Seq<(Seq<char>, Seq<char>)>) -> Seq<char>;

/// Why a URL with parameters could not be made.
#[derive(Clone, Copy, Debug, PartialEq, Eq, Structural)]
pub enum UrlError {
    /// The base is no absolute URL.
    NotAbsolute,
    /// The URL could get longer than the positions in a URL are counted.
    TooLong,
}

/// The value of the last pair of `pairs` that is named `key`.
pub open spec fn last_value(pairs: Seq<(Seq<char>, Seq<char>)>, key: Seq<char>) -> Option<
    Seq<char>,
>
    decreases pairs.len(),
{
    if pairs.len() == 0 {
        None
    } else if pairs.last().0 == key {
        Some(pairs.last().1)
    } else {
        last_value(pairs.drop_last(), key)
    }
}

/// A name that occurs at `at` and nowhere behind it has the value that
/// stands there.
pub proof fn lemma_last_value_at(pairs: Seq<(Seq<char>, Seq<char>)>, key: Seq<char>, at: int)
    requires
        0 <= at < pairs.len(),
        pairs[at].0 == key,
        forall|j: int| at < j < pairs.len() ==> (#[trigger] pairs[j]).0 != key,
    ensures
        last_value(pairs, key) == Some(pairs[at].1),
    decreases pairs.len(),
{
    if at < pairs.len() - 1 {
        let front = pairs.drop_last();
        assert(front[at] == pairs[at]);
        assert forall|j: int| at < j < front.len() implies (#[trigger] front[j]).0 != key by {
            assert(front[j] == pairs[j]);
        }
        assert(pairs.last() == pairs[pairs.len() - 1]);
        lemma_last_value_at(front, key, at);
    }
}

/// The most bytes that the text of a base URL may have here.
pub const URL_BASE_MAX: usize = 1048576;

/// The most bytes that are left to the pairs that are appended to a URL.
pub const URL_QUERY_MAX: u64 = 2147483648;

/// The most bytes that one pair takes in a query: each byte of its name and
/// of its value becomes three at most, and two more separate it.
pub open spec fn pair_cost(name: Seq<char>, value: Seq<char>) -> nat {
    3 * (byte_len(name) + byte_len(value)) + 2
}

/// The most bytes that `params` take in a query.
pub open spec fn pairs_cost(params: Seq<(Seq<char>, Seq<char>)>) -> nat
    decreases params.len(),
{
    if params.len() == 0 {
        0
    } else {
        pairs_cost(params.drop_last()) + pair_cost(params.last().0, params.last().1)
    }
}

/// Whether `base` and `params` can be made into one URL. The `url` crate
/// counts the positions in a URL in 32 bits, which is the one limit there
/// is. Half of that count is left to the pairs, by what they take at most;
/// the base may fill the other half once it is parsed, which a text of no
/// more than [`URL_BASE_MAX`] bytes does not come near.
pub open spec fn fits_url(base: Seq<char>, params: Seq<(Seq<char>, Seq<char>)>) -> bool {
    &&& byte_len(base) <= URL_BASE_MAX
    &&& pairs_cost(params) <= URL_QUERY_MAX
}

/// The first pairs of a list take no more than the whole list.
pub proof fn lemma_pairs_cost_grows(params: Seq<(Seq<char>, Seq<char>)>, n: int)
    requires
        0 <= n <= params.len(),
    ensures
        pairs_cost(params.take(n)) <= pairs_cost(params),
    decreases params.len() - n,
{
    if n == params.len() {
        assert(params.take(n) == params);
    } else {
        lemma_pairs_cost_grows(params.drop_last(), n);
        assert(params.drop_last().take(n) == params.take(n));
    }
}

/// Lists whose names and values are as long as each other's take as much.
pub proof fn lemma_pairs_cost_by_lengths(
    a: Seq<(Seq<char>, Seq<char>)>,
    b: Seq<(Seq<char>, Seq<char>)>,
)
    requires
        a.len() == b.len(),
        forall|i: int|
            0 <= i < a.len() ==> byte_len((#[trigger] a[i]).0) == byte_len(b[i].0) && byte_len(
                a[i].1,
            ) == byte_len(b[i].1),
    ensures
        pairs_cost(a) == pairs_cost(b),
    decreases a.len(),
{
    if a.len() > 0 {
        let a0 = a.drop_last();
        let b0 = b.drop_last();
        assert forall|i: int| 0 <= i < a0.len() implies byte_len((#[trigger] a0[i]).0) == byte_len(
            b0[i].0,
        ) && byte_len(a0[i].1) == byte_len(b0[i].1) by {
            assert(a0[i] == a[i]);
            assert(b0[i] == b[i]);
        }
        lemma_pairs_cost_by_lengths(a0, b0);
        assert(a.last() == a[a.len() - 1]);
        assert(b.last() == b[b.len() - 1]);
    }
}

/// `Url::parse` of the `url` crate parses an absolute URL and fails on
/// anything else. Believed of the crate, not proved: whether a text
/// parses, and to which query, depends on the text alone.
#[verifier::external_body]
fn parse_url(text: &str) -> (r: Result<url::Url, url::ParseError>)
    ensures
        match r {
            Ok(url) => parsed_query(text@) == Some(url_query(url)),
            Err(_) => parsed_query(text@) is None,
        },
{
    url::Url::parse(text)
}

/// `Url::query_pairs` of the `url` crate walks the query of the URL as
/// form-encoded pairs and decodes each name and value. Believed of the
/// crate, not proved: the pairs are only named.
#[verifier::external_body]
fn url_query_pairs(url: &url::Url) -> (pairs: Vec<(String, String)>)
    ensures
        pairs.deep_view() == url_query(*url),
{
    url.query_pairs().map(|(k, v)| (k.into_owned(), v.into_owned())).collect()
}

/// `Url::parse_with_params` of the `url` crate parses an absolute URL as
/// `Url::parse` does, failing where that fails, and appends the pairs to
/// its query, keeping what the query held. The crate counts positions in
/// 32 bits and panics beyond them; `fits_url` leaves half of that count to
/// the pairs, which take three bytes for one at most and two for their
/// separators, and lets the base be no longer than a two-thousandth of the
/// other half before it is parsed. Believed of the crate, not proved: the
/// text of the URL is only named.
#[verifier::external_body]
fn parse_url_with_params(base: &str, params: &Vec<(String, String)>) -> (r: Option<String>)
    requires
        fits_url(base@, params.deep_view()),
    ensures
        match r {
            Some(text) => url_with_params(base@, params.deep_view()) == Some(text@),
            None => url_with_params(base@, params.deep_view()) is None,
        },
        r is Some <==> parsed_query(base@) is Some,
{
    url::Url::parse_with_params::<_, String, String>(base, params).ok().map(String::from)
}

/// `form_urlencoded::Serializer` of the `url` crate writes each pair as
/// `name=value`, joined by `&`, with names and values percent-encoded.
/// Believed of the crate, not proved: the body is only named.
#[verifier::external_body]
pub(crate) fn form_serialize(pairs: &Vec<(String, String)>) -> (body: String)
    ensures
        body@ == form_encoded(pairs.deep_view()),
{
    url::form_urlencoded::Serializer::new(String::new()).extend_pairs(pairs).finish()
}

/// Finds the value of the last pair named `key`.
pub fn find_last(pairs: &Vec<(String, String)>, key: &str) -> (found: Option<String>)
    ensures
        found.deep_view() == last_value(pairs.deep_view(), key@),
{
    let ghost all = pairs.deep_view();
    let mut i: usize = pairs.len();
    proof {
        assert(all.take(i as int) == all);
    }
    while i > 0
        invariant
            i <= pairs.len(),
            all == pairs.deep_view(),
            last_value(all, key@) == last_value(all.take(i as int), key@),
        decreases i,
    {
        i -= 1;
        proof {
            let upto = all.take(i + 1);
            assert(upto.drop_last() == all.take(i as int));
            assert(upto.last() == (pairs@[i as int].0@, pairs@[i as int].1@));
        }
        if same_text(pairs[i].0.as_str(), key) {
            return Some(pairs[i].1.clone());
        }
    }
    proof {
        assert(all.take(0).len() == 0);
    }
    None
}

/// Parses `text` as an absolute URL and returns the pairs of its query, or
/// `None` where `text` is no absolute URL.
pub fn query_of(text: &str) -> (r: Option<Vec<(String, String)>>)
    ensures
        match parsed_query(text@) {
            Some(query) => r matches Some(pairs) && pairs.deep_view() == query,
            None => r is None,
        },
{
    match parse_url(text) {
        Ok(url) => Some(url_query_pairs(&url)),
        Err(_) => None,
    }
}

/// Counts the most bytes that `params` take in a query, or gives `None`
/// where that is more than is left to them.
pub fn query_cost(params: &Vec<(String, String)>) -> (r: Option<u64>)
    ensures
        r == if pairs_cost(params.deep_view()) <= URL_QUERY_MAX {
            Some(pairs_cost(params.deep_view()) as u64)
        } else {
            None
        },
{
    let ghost all = params.deep_view();
    let mut cost: u64 = 0;
    let mut i: usize = 0;
    while i < params.len()
        invariant
            i <= params.len(),
            all == params.deep_view(),
            cost == pairs_cost(all.take(i as int)),
            cost <= URL_QUERY_MAX,
        decreases params.len() - i,
    {
        let name_len: u64 = byte_len_of(params[i].0.as_str()) as u64;
        let value_len: u64 = byte_len_of(params[i].1.as_str()) as u64;
        proof {
            let upto = all.take(i + 1);
            assert(upto.drop_last() == all.take(i as int));
            assert(upto.last() == (params@[i as int].0@, params@[i as int].1@));
            lemma_pairs_cost_grows(all, i + 1);
        }
        if name_len > URL_QUERY_MAX || value_len > URL_QUERY_MAX {
            return None;
        }
        let add: u64 = 3 * (name_len + value_len) + 2;
        if add > URL_QUERY_MAX - cost {
            return None;
        }
        cost = cost + add;
        i += 1;
    }
    proof {
        assert(all.take(params.len() as int) == all);
    }
    Some(cost)
}

/// Tests whether `base` and `params` can be made into one URL.
pub fn check_fits_url(base: &str, params: &Vec<(String, String)>) -> (fits: bool)
    ensures
        fits == fits_url(base@, params.deep_view()),
{
    byte_len_of(base) <= URL_BASE_MAX && query_cost(params).is_some()
}

/// Tests whether `text` is an absolute URL.
pub fn is_absolute_url(text: &str) -> (r: bool)
    ensures
        r == parsed_query(text@) is Some,
{
    parse_url(text).is_ok()
}

/// What making `base` and `params` into one URL comes to: the text of the
/// URL, or why there is none. The size is looked at first.
pub open spec fn with_params_outcome(
    base: Seq<char>,
    params: Seq<(Seq<char>, Seq<char>)>,
) -> Result<Seq<char>, UrlError> {
    if !fits_url(base, params) {
        Err(UrlError::TooLong)
    } else {
        match url_with_params(base, params) {
            Some(text) => Ok(text),
            None => Err(UrlError::NotAbsolute),
        }
    }
}

/// Parses `base` as an absolute URL and appends `params` to its query.
/// Where the parts fit, this fails exactly where `base` is no absolute
/// URL.
pub fn with_params(base: &str, params: &Vec<(String, String)>) -> (r: Result<String, UrlError>)
    ensures
        match with_params_outcome(base@, params.deep_view()) {
            Ok(text) => r matches Ok(given) && given@ == text,
            Err(why) => r == Err::<String, UrlError>(why),
        },
        fits_url(base@, params.deep_view()) ==> (r is Ok <==> parsed_query(base@) is Some),
{
    if check_fits_url(base, params) {
        match parse_url_with_params(base, params) {
            Some(text) => Ok(text),
            None => Err(UrlError::NotAbsolute),
        }
    } else {
        Err(UrlError::TooLong)
    }
}

} // verus!
