use vstd::prelude::*;

use crate::error::ClientError;
use crate::filter::Params;

verus! {

/// Whether a text parses as an absolute URL.
pub uninterp spec fn url_accepts(s: Seq<char>) -> bool;

/// The serialised URL that results from parsing `address` and appending each
/// pair of `pairs`, in order, to its query, form-urlencoded.
pub uninterp spec fn url_with_query(address: Seq<char>, pairs: Seq<(Seq<char>, Seq<char>)>) -> Seq<
    char,
>;

/// Relies on `url::Url::parse`: it succeeds exactly on absolute URLs.
#[verifier::external_body]
fn parses_as_url(s: &str) -> (r: bool)
    ensures
        r == url_accepts(s@),
{
    url::Url::parse(s).is_ok()
}

/// Relies on `url::Url::parse` and on `append_pair` of `Url::query_pairs_mut`,
/// which percent-encodes each pair into the query; the result is the URL's
/// serialisation.
#[verifier::external_body]
fn encode_url(address: &str, pairs: &Params) -> (r: String)
    requires
        url_accepts(address@),
    ensures
        r@ == url_with_query(address@, pairs.deep_view()),
{
    match url::Url::parse(address) {
        Ok(mut url) => {
            for (key, value) in pairs.iter() {
                url.query_pairs_mut().append_pair(key, value);
            }
            url.into()
        },
        Err(_) => String::new(),
    }
}

/// Whether `c` is the path separator.
pub open spec fn is_slash(c: char) -> bool {
    c == '/'
}

/// `s` without its leading slashes.
pub open spec fn trim_leading_slashes(s: Seq<char>) -> Seq<char>
    decreases s.len(),
{
    if s.len() > 0 && is_slash(s[0]) {
        trim_leading_slashes(s.drop_first())
    } else {
        s
    }
}

/// `s` without its trailing slashes.
pub open spec fn trim_trailing_slashes(s: Seq<char>) -> Seq<char>
    decreases s.len(),
{
    if s.len() > 0 && is_slash(s.last()) {
        trim_trailing_slashes(s.drop_last())
    } else {
        s
    }
}

/// The address of `endpoint` under `base`, joined by exactly one slash.
pub open spec fn joined_address(base: Seq<char>, endpoint: Seq<char>) -> Seq<char> {
    trim_trailing_slashes(base) + seq!['/'] + trim_leading_slashes(endpoint)
}

/// A request address: the endpoint's address, the query pairs appended to it,
/// and the serialised URL.
#[derive(Debug, PartialEq)]
pub struct RequestUrl {
    pub address: String,
    pub query: Params,
    pub text: String,
}

/// Removes the leading slashes of `s`.
fn strip_leading_slashes(s: &str) -> (r: &str)
    ensures
        r@ == trim_leading_slashes(s@),
{
    let n = s.unicode_len();
    let mut i: usize = 0;
    assert(s@.subrange(0, n as int) =~= s@);
    while i < n && s.get_char(i) == '/'
        invariant
            n == s@.len(),
            i <= n,
            trim_leading_slashes(s@) == trim_leading_slashes(s@.subrange(i as int, n as int)),
        decreases n - i,
    {
        assert(s@.subrange(i as int, n as int).drop_first() =~= s@.subrange(i + 1, n as int));
        i = i + 1;
    }
    s.substring_char(i, n)
}

/// Removes the trailing slashes of `s`.
fn strip_trailing_slashes(s: &str) -> (r: &str)
    ensures
        r@ == trim_trailing_slashes(s@),
{
    let n = s.unicode_len();
    let mut j: usize = n;
    assert(s@.subrange(0, n as int) =~= s@);
    while j > 0 && s.get_char(j - 1) == '/'
        invariant
            n == s@.len(),
            j <= n,
            trim_trailing_slashes(s@) == trim_trailing_slashes(s@.subrange(0, j as int)),
        decreases j,
    {
        assert(s@.subrange(0, j as int).drop_last() =~= s@.subrange(0, j - 1));
        j = j - 1;
    }
    s.substring_char(0, j)
}

/// Joins `endpoint` to `base` with exactly one slash between them.
pub fn join_address(base: &str, endpoint: &str) -> (r: String)
    ensures
        r@ == joined_address(base@, endpoint@),
{
    proof {
        reveal_strlit("/");
    }
    let mut s = String::from_str(strip_trailing_slashes(base));
    s.append("/");
    s.append(strip_leading_slashes(endpoint));
    s
}

/// `r` is the outcome of building the address of `endpoint` under `base` with
/// query `params`: the joined address with the pairs in order, or
/// `MalformedUrl` exactly when `base` or the joined address is not an
/// absolute URL.
pub open spec fn built_from(
    r: Result<RequestUrl, ClientError>,
    base: Seq<char>,
    endpoint: Seq<char>,
    params: Seq<(Seq<char>, Seq<char>)>,
) -> bool {
    match r {
        Ok(u) => {
            &&& url_accepts(base)
            &&& url_accepts(joined_address(base, endpoint))
            &&& u.address@ == joined_address(base, endpoint)
            &&& u.query.deep_view() == params
            &&& u.text@ == url_with_query(u.address@, params)
        },
        Err(e) => {
            &&& !(url_accepts(base) && url_accepts(joined_address(base, endpoint)))
            &&& e matches ClientError::MalformedUrl { url } && url@ == joined_address(
                base,
                endpoint,
            )
        },
    }
}

/// Builds the request address of `endpoint` under `base` with the query
/// `params`. Fails with `MalformedUrl` exactly when `base` or the joined
/// address is not an absolute URL.
pub fn build_url(base: &str, endpoint: &str, params: Params) -> (r: Result<RequestUrl, ClientError>)
    ensures
        built_from(r, base@, endpoint@, params.deep_view()),
{
    let address = join_address(base, endpoint);
    if !parses_as_url(base) || !parses_as_url(address.as_str()) {
        return Err(ClientError::MalformedUrl { url: address });
    }
    let text = encode_url(address.as_str(), &params);
    Ok(RequestUrl { address, query: params, text })
}

/// After trimming, an endpoint starts with no slash.
proof fn lemma_trimmed_leading(s: Seq<char>)
    ensures
        trim_leading_slashes(s).len() == 0 || !is_slash(trim_leading_slashes(s)[0]),
    decreases s.len(),
{
    if s.len() > 0 && is_slash(s[0]) {
        lemma_trimmed_leading(s.drop_first());
    }
}

/// After trimming, a base ends with no slash.
proof fn lemma_trimmed_trailing(s: Seq<char>)
    ensures
        trim_trailing_slashes(s).len() == 0 || !is_slash(trim_trailing_slashes(s).last()),
    decreases s.len(),
{
    if s.len() > 0 && is_slash(s.last()) {
        lemma_trimmed_trailing(s.drop_last());
    }
}

/// The joined address has exactly one slash where base and endpoint meet: the
/// trimmed base, one slash, and the trimmed endpoint, neither of which has a
/// slash at the join.
pub proof fn lemma_join_one_slash(base: Seq<char>, endpoint: Seq<char>)
    ensures
        ({
            let b = trim_trailing_slashes(base);
            let e = trim_leading_slashes(endpoint);
            &&& joined_address(base, endpoint) == b + seq!['/'] + e
            &&& b.len() == 0 || !is_slash(b.last())
            &&& e.len() == 0 || !is_slash(e[0])
        }),
{
    lemma_trimmed_leading(endpoint);
    lemma_trimmed_trailing(base);
}

/// Extra slashes at the join change nothing: a trailing slash on the base or a
/// leading slash on the endpoint gives the same address.
pub proof fn lemma_join_ignores_extra_slashes(base: Seq<char>, endpoint: Seq<char>)
    ensures
        joined_address(base.push('/'), endpoint) == joined_address(base, endpoint),
        joined_address(base, seq!['/'] + endpoint) == joined_address(base, endpoint),
{
    assert(base.push('/').drop_last() =~= base);
    assert((seq!['/'] + endpoint).drop_first() =~= endpoint);
}

} // verus!
