//! Building request URLs.
//!
//! Every outgoing address is composed the same way: a fixed relay prefix is
//! put in front of the target endpoint (the relay exists only to satisfy a
//! cross-origin restriction and rewrites nothing but the address), the query
//! parameters are joined into `key=value` pairs separated by `&` in the
//! order given, and the composed string is parsed and serialized by the
//! `url` crate. Only that last parsing step is trusted; the query string and
//! the string handed to the parser are built by verified code.

use vstd::prelude::*;
use vstd::string::StringExecFns;

verus! {

/// The composed address could not be parsed as an absolute URL.
#[derive(Debug, Clone, PartialEq, Eq)]
pub struct UrlError;

/// The longest target endpoint the builder accepts, in characters: keeps
/// the relay-prefixed address far below the `url` crate's 4 GiB
/// serialization ceiling.
pub const URL_LEN_LIMIT: usize = 0x400_0000;

/// The longest query string the builder hands to the `url` crate, in
/// characters; see [`URL_LEN_LIMIT`].
pub const QUERY_LEN_LIMIT: usize = 0xC00_0000;

/// The fixed relay prefix put in front of every outgoing URL.
pub open spec fn spec_proxy() -> Seq<char> {
    "https://thingproxy.freeboard.io/fetch/"@
}

/// The relay prefix as a string slice.
pub fn proxy_prefix() -> (s: &'static str)
    ensures
        s@ == spec_proxy(),
{
    "https://thingproxy.freeboard.io/fetch/"
}

/// The search endpoint, as a sequence of characters.
pub open spec fn spec_search_endpoint() -> Seq<char> {
    "https://www.openpowerlifting.org/api/search/rankings"@
}

/// The search endpoint: resolves a free-text name to an index.
pub fn search_endpoint() -> (s: &'static str)
    ensures
        s@ == spec_search_endpoint(),
{
    "https://www.openpowerlifting.org/api/search/rankings"
}

/// The rankings endpoint, as a sequence of characters.
pub open spec fn spec_rankings_endpoint() -> Seq<char> {
    "https://www.openpowerlifting.org/api/rankings"@
}

/// The rankings endpoint: serves rows of the global ranked list.
pub fn rankings_endpoint() -> (s: &'static str)
    ensures
        s@ == spec_rankings_endpoint(),
{
    "https://www.openpowerlifting.org/api/rankings"
}

/// A base this builder actually composes: the relay prefix put before one
/// of the two fixed endpoints. Both serializations are already canonical
/// and hold no backslash, no fragment mark, and no `.` or `..` path
/// segment in any spelling, so the `url` crate's path normalization
/// rewrites nothing in them.
pub open spec fn relay_base(base: Seq<char>) -> bool {
    ||| base == spec_proxy() + spec_search_endpoint()
    ||| base == spec_proxy() + spec_rankings_endpoint()
}

/// The decimal digit character for `d`.
pub open spec fn spec_digit(d: nat) -> char {
    if d == 0 {
        '0'
    } else if d == 1 {
        '1'
    } else if d == 2 {
        '2'
    } else if d == 3 {
        '3'
    } else if d == 4 {
        '4'
    } else if d == 5 {
        '5'
    } else if d == 6 {
        '6'
    } else if d == 7 {
        '7'
    } else if d == 8 {
        '8'
    } else {
        '9'
    }
}

/// The decimal numeral of `n`: most significant digit first, no leading
/// zeros except for `n == 0` itself.
pub open spec fn spec_dec(n: nat) -> Seq<char>
    decreases n,
{
    if n < 10 {
        seq![spec_digit(n)]
    } else {
        spec_dec(n / 10) + seq![spec_digit(n % 10)]
    }
}

/// The `k`-th power of ten.
pub open spec fn pow10(k: nat) -> nat
    decreases k,
{
    if k == 0 {
        1
    } else {
        10 * pow10((k - 1) as nat)
    }
}

proof fn lemma_pow10_pos(k: nat)
    ensures
        pow10(k) >= 1,
    decreases k,
{
    if k > 0 {
        lemma_pow10_pos((k - 1) as nat);
    }
}

/// A numeral has at most as many digits as the power of ten above it.
proof fn lemma_dec_len(n: nat, k: nat)
    requires
        k >= 1,
        n < pow10(k),
    ensures
        spec_dec(n).len() <= k,
    decreases k,
{
    if n >= 10 {
        lemma_pow10_pos((k - 1) as nat);
        assert(pow10(k) == 10 * pow10((k - 1) as nat));
        assert(n / 10 < pow10((k - 1) as nat)) by (nonlinear_arith)
            requires
                n < 10 * pow10((k - 1) as nat),
                pow10((k - 1) as nat) >= 1,
        ;
        lemma_dec_len(n / 10, (k - 1) as nat);
    }
}

/// Sixty-four-bit numerals have at most twenty digits.
pub proof fn lemma_dec_len_u64(n: u64)
    ensures
        spec_dec(n as nat).len() <= 20,
{
    reveal_with_fuel(pow10, 21);
    assert(pow10(20) == 100000000000000000000);
    lemma_dec_len(n as nat, 20);
}

/// Append the digit character for `d` to `s`.
fn push_digit(s: &mut String, d: u64)
    requires
        d < 10,
    ensures
        final(s)@ == old(s)@ + seq![spec_digit(d as nat)],
{
    let c: &'static str = if d == 0 {
        "0"
    } else if d == 1 {
        "1"
    } else if d == 2 {
        "2"
    } else if d == 3 {
        "3"
    } else if d == 4 {
        "4"
    } else if d == 5 {
        "5"
    } else if d == 6 {
        "6"
    } else if d == 7 {
        "7"
    } else if d == 8 {
        "8"
    } else {
        "9"
    };
    proof {
        reveal_strlit("0");
        reveal_strlit("1");
        reveal_strlit("2");
        reveal_strlit("3");
        reveal_strlit("4");
        reveal_strlit("5");
        reveal_strlit("6");
        reveal_strlit("7");
        reveal_strlit("8");
        reveal_strlit("9");
        assert(c@ =~= seq![spec_digit(d as nat)]);
    }
    s.append(c);
}

/// Write `n` in decimal.
pub fn u64_to_dec(n: u64) -> (s: String)
    ensures
        s@ == spec_dec(n as nat),
    decreases n,
{
    if n < 10 {
        let mut s = String::new();
        push_digit(&mut s, n);
        proof {
            assert(s@ =~= spec_dec(n as nat));
        }
        s
    } else {
        let mut s = u64_to_dec(n / 10);
        push_digit(&mut s, n % 10);
        proof {
            assert((n / 10) as nat == (n as nat) / 10);
            assert((n % 10) as nat == (n as nat) % 10);
            assert(s@ =~= spec_dec(n as nat));
        }
        s
    }
}

/// One serialized query pair, `key=value`.
pub open spec fn spec_pair(p: (Seq<char>, Seq<char>)) -> Seq<char> {
    p.0 + seq!['='] + p.1
}

/// The first `i` query pairs joined with `&`.
pub open spec fn query_upto(ps: Seq<(Seq<char>, Seq<char>)>, i: int) -> Seq<char>
    decreases i,
{
    if i <= 0 {
        Seq::empty()
    } else if i == 1 {
        spec_pair(ps[0])
    } else {
        query_upto(ps, i - 1) + seq!['&'] + spec_pair(ps[i - 1])
    }
}

/// The query string for `ps`: `key=value` pairs joined with `&`, in the
/// order given, with no escaping of the crate's own.
pub open spec fn spec_query(ps: Seq<(Seq<char>, Seq<char>)>) -> Seq<char> {
    query_upto(ps, ps.len() as int)
}

/// The character sequences of a list of owned parameter pairs.
pub open spec fn params_view(ps: Seq<(String, String)>) -> Seq<(Seq<char>, Seq<char>)> {
    ps.map_values(|p: (String, String)| (p.0@, p.1@))
}

/// Join the parameters into a query string.
fn build_query(parameters: &Vec<(String, String)>) -> (q: String)
    ensures
        q@ == spec_query(params_view(parameters@)),
{
    let mut q = String::new();
    let mut i: usize = 0;
    while i < parameters.len()
        invariant
            0 <= i <= parameters@.len(),
            q@ == query_upto(params_view(parameters@), i as int),
        decreases parameters@.len() - i,
    {
        if i > 0 {
            q.append("&");
        }
        q.append(parameters[i].0.as_str());
        q.append("=");
        q.append(parameters[i].1.as_str());
        proof {
            reveal_strlit("&");
            reveal_strlit("=");
            assert(params_view(parameters@)[i as int] == (
                parameters@[i as int].0@,
                parameters@[i as int].1@,
            ));
            assert(q@ =~= query_upto(params_view(parameters@), i as int + 1));
        }
        i = i + 1;
    }
    q
}

/// A character the `url` crate's query serialization keeps exactly as it
/// is: printable ASCII outside the query percent-encode set (controls,
/// space, `"`, `#`, `<`, `>`, and `'` for special schemes) and outside the
/// `%` escapes the serializer writes itself.
pub open spec fn query_char_safe(c: char) -> bool {
    &&& 0x21 <= c as int <= 0x7e
    &&& c != '"'
    &&& c != '#'
    &&& c != '<'
    &&& c != '>'
    &&& c != '\''
    &&& c != '%'
}

/// A query string the `url` crate serializes unchanged.
pub open spec fn query_safe(q: Seq<char>) -> bool {
    forall|i: int| 0 <= i < q.len() ==> query_char_safe(#[trigger] q[i])
}

/// Safe query strings are closed under joining.
pub proof fn lemma_query_safe_concat(a: Seq<char>, b: Seq<char>)
    requires
        query_safe(a),
        query_safe(b),
    ensures
        query_safe(a + b),
{
    assert forall|i: int| 0 <= i < (a + b).len() implies query_char_safe(#[trigger] (a + b)[i]) by {
        if i < a.len() {
            assert(query_char_safe(a[i]));
        } else {
            assert(query_char_safe(b[i - a.len()]));
        }
    }
}

/// A decimal numeral consists of digit characters alone, which every
/// query serialization keeps as they are.
pub proof fn lemma_dec_safe(n: nat)
    ensures
        query_safe(spec_dec(n)),
    decreases n,
{
    assert(query_char_safe(spec_digit(n % 10)));
    if n < 10 {
        assert(query_char_safe(spec_digit(n)));
    } else {
        lemma_dec_safe(n / 10);
        lemma_query_safe_concat(spec_dec(n / 10), seq![spec_digit(n % 10)]);
    }
}

/// Whether the `url` crate parses `base` as an absolute URL. `Url::parse`
/// never sees a query of the builder's, so this is a function of the base
/// alone.
pub uninterp spec fn spec_url_parses(base: Seq<char>) -> bool;

/// The serialization the `url` crate gives to `base` parsed as an absolute
/// URL with its query part set to `query`; meaningful only when
/// [`spec_url_parses`] holds of `base`.
pub uninterp spec fn url_with_query(base: Seq<char>, query: Seq<char>) -> Seq<char>;

/// Relies on the `url` crate (as re-exported by `reqwest`): `Url::parse`
/// deterministically parses an absolute URL, failing exactly on strings
/// that are none (it rejects serializations of 4 GiB and more by itself);
/// `Url::set_query` replaces the URL's query part, never fails, and keeps
/// untouched every query character outside the query percent-encode set;
/// `Url::as_str` returns the URL's serialization. So the outcome is a
/// function of `base` and `query` alone, and success depends on `base`
/// alone. The shape clause is stated only for the two fixed bases of
/// [`relay_base`]: parsing rewrites paths in general (dot segments pop a
/// segment, a backslash acts as a slash, unsafe characters are escaped),
/// but those two canonical strings it parses verbatim, and with no
/// fragment mark in them the query part, kept verbatim when
/// [`query_safe`], ends the serialization. The two length bounds are what
/// rules the one panic out: after appending the percent-encoded query (at
/// most twelve bytes per character), restoring a fragment would measure
/// the grown serialization against the 4 GiB ceiling, and the bounded
/// inputs stay below it.
#[verifier::external_body]
fn parse_with_query(base: &str, query: &str) -> (r: Option<String>)
    requires
        base@.len() <= 0x800_0000,
        query@.len() <= QUERY_LEN_LIMIT,
    ensures
        r is Some <==> spec_url_parses(base@),
        r matches Some(s) ==> s@ == url_with_query(base@, query@),
        r matches Some(s) ==> ((relay_base(base@) && query_safe(query@))
            ==> spec_proxy().is_prefix_of(s@) && (seq!['?'] + query@).is_suffix_of(s@)),
{
    match reqwest::Url::parse(base) {
        Ok(mut u) => {
            u.set_query(Some(query));
            Some(u.as_str().to_owned())
        },
        Err(_) => None,
    }
}

/// Compose a request URL: the relay prefix, then `url`, then the query
/// string serializing `parameters` in order, all parsed and serialized by
/// the `url` crate. Fails with [`UrlError`] exactly when the relay prefix
/// plus `url` is not a valid absolute URL — the parameters never decide
/// success. When the target is one of the two fixed endpoints and the
/// query needs no escaping, the output begins with the relay prefix and
/// ends with `?` followed by exactly the serialized parameters. The two
/// length bounds are machine limits: they keep the composed address below
/// the `url` crate's 4 GiB ceiling.
pub fn build_url_with_params(url: &str, parameters: &Vec<(String, String)>) -> (r: Result<
    String,
    UrlError,
>)
    requires
        url@.len() <= URL_LEN_LIMIT,
        spec_query(params_view(parameters@)).len() <= QUERY_LEN_LIMIT,
    ensures
        r is Ok <==> spec_url_parses(spec_proxy() + url@),
        r matches Ok(s) ==> s@ == url_with_query(
            spec_proxy() + url@,
            spec_query(params_view(parameters@)),
        ),
        r matches Ok(s) ==> ((relay_base(spec_proxy() + url@) && query_safe(
            spec_query(params_view(parameters@)),
        )) ==> spec_proxy().is_prefix_of(s@) && (seq!['?'] + spec_query(
            params_view(parameters@),
        )).is_suffix_of(s@)),
{
    let query = build_query(parameters);
    let mut full = proxy_prefix().to_owned();
    full.append(url);
    proof {
        reveal_strlit("https://thingproxy.freeboard.io/fetch/");
    }
    match parse_with_query(full.as_str(), query.as_str()) {
        Some(s) => Ok(s),
        None => Err(UrlError),
    }
}

} // verus!
