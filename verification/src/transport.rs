//! Building the upstream requests: the tail-subscription URL (secure
//! streaming scheme, selector, result cap and start anchor), the windowed
//! range-query URL, and the Basic authentication header. URL parsing and
//! query-string encoding are delegated to the `url` crate, credential
//! encoding to the `base64` crate, both behind trusted wrappers.

use vstd::prelude::*;
use vstd::string::StringExecFns;

use crate::config::LokiConnectionInfo;

verus! {

/// What the base64 crate's standard-alphabet engine returns for a given
/// input; the encoding is a function of the input alone.
pub uninterp spec fn base64_of(s: Seq<char>) -> Seq<char>;

/// Relies on base64's `Engine::encode` with the `STANDARD` engine: the
/// encoded form is determined by the input bytes alone.
#[verifier::external_body]
fn base64_encode(s: &str) -> (r: String)
    ensures
        r@ == base64_of(s@),
{
    base64::Engine::encode(&base64::engine::general_purpose::STANDARD, s.as_bytes())
}

/// What the url crate produces for an endpoint whose scheme is replaced and
/// whose query string is rebuilt from the given pairs; `None` exactly when
/// the endpoint does not parse as a URL or the scheme switch is refused.
pub uninterp spec fn url_with_scheme_of(
    endpoint: Seq<char>,
    scheme: Seq<char>,
    pairs: Seq<(Seq<char>, Seq<char>)>,
) -> Option<Seq<char>>;

/// Relies on url's `Url::parse`, `Url::set_scheme` and
/// `Serializer::append_pair` via `query_pairs_mut`: all deterministic in
/// their inputs, with `None` exactly on a parse or scheme failure.
#[verifier::external_body]
fn build_url_with_scheme(endpoint: &str, scheme: &str, pairs: &Vec<(String, String)>) -> (r: Option<
    String,
>)
    ensures
        r.deep_view() == url_with_scheme_of(endpoint@, scheme@, pairs.deep_view()),
{
    let mut url = url::Url::parse(endpoint).ok()?;
    url.set_scheme(scheme).ok()?;
    {
        let mut serializer = url.query_pairs_mut();
        serializer.clear();
        for p in pairs.iter() {
            serializer.append_pair(&p.0, &p.1);
        }
    }
    Some(String::from(url))
}

/// What the url crate produces for an endpoint kept on its own scheme with
/// its query string rebuilt from the given pairs; `None` exactly when the
/// endpoint does not parse as a URL.
pub uninterp spec fn url_query_of(endpoint: Seq<char>, pairs: Seq<(Seq<char>, Seq<char>)>) -> Option<
    Seq<char>,
>;

/// Relies on url's `Url::parse` and `Serializer::append_pair` via
/// `query_pairs_mut`: deterministic in the inputs, `None` exactly when the
/// endpoint does not parse.
#[verifier::external_body]
fn build_query_url(endpoint: &str, pairs: &Vec<(String, String)>) -> (r: Option<String>)
    ensures
        r.deep_view() == url_query_of(endpoint@, pairs.deep_view()),
{
    let mut url = url::Url::parse(endpoint).ok()?;
    {
        let mut serializer = url.query_pairs_mut();
        serializer.clear();
        for p in pairs.iter() {
            serializer.append_pair(&p.0, &p.1);
        }
    }
    Some(String::from(url))
}

/// The decimal digit for one value below ten.
pub open spec fn digit_char(d: nat) -> char {
    if d == 0 {
        '0'
    } else if d == 1 {
        '1'
    } else if d == 2 {
        '2'
    } else if d == 3 {
        '3'
    } else if d == 4 {
        '4'
    } else if d == 5 {
        '5'
    } else if d == 6 {
        '6'
    } else if d == 7 {
        '7'
    } else if d == 8 {
        '8'
    } else {
        '9'
    }
}

/// The decimal digit string of a number, most significant digit first and
/// without leading zeros (a lone zero for zero itself).
pub open spec fn dec_digits(n: nat) -> Seq<char>
    decreases n,
{
    if n < 10 {
        seq![digit_char(n)]
    } else {
        dec_digits(n / 10).push(digit_char(n % 10))
    }
}

/// The one-character string for a decimal digit.
fn digit_str(d: u64) -> (r: &'static str)
    requires
        d < 10,
    ensures
        r@.len() == 1,
        r@[0] == digit_char(d as nat),
{
    proof {
        reveal_strlit("0");
        reveal_strlit("1");
        reveal_strlit("2");
        reveal_strlit("3");
        reveal_strlit("4");
        reveal_strlit("5");
        reveal_strlit("6");
        reveal_strlit("7");
        reveal_strlit("8");
        reveal_strlit("9");
    }
    match d {
        0 => "0",
        1 => "1",
        2 => "2",
        3 => "3",
        4 => "4",
        5 => "5",
        6 => "6",
        7 => "7",
        8 => "8",
        _ => "9",
    }
}

/// Formats a number in decimal, as it goes into the `start` and `end`
/// query parameters.
pub fn u64_to_dec(n: u64) -> (r: String)
    ensures
        r@ == dec_digits(n as nat),
    decreases n,
{
    let d: u64 = n % 10;
    let ds = digit_str(d);
    if n < 10 {
        let r = String::from_str(ds);
        proof {
            assert(r@ =~= seq![digit_char(n as nat)]);
        }
        r
    } else {
        let mut s = u64_to_dec(n / 10);
        s.append(ds);
        proof {
            assert((n / 10) as nat == (n as nat) / 10);
            assert((n % 10) as nat == (n as nat) % 10);
            assert(s@ =~= dec_digits((n as nat) / 10).push(digit_char((n as nat) % 10)));
        }
        s
    }
}

/// The password's characters, or none at all when it is unset.
pub open spec fn pw_chars(pw: Option<Seq<char>>) -> Seq<char> {
    match pw {
        Some(p) => p,
        None => Seq::empty(),
    }
}

/// The credential string that is base64-encoded: `user:password`, with an
/// empty password part when none is set.
pub open spec fn credential_chars(user: Seq<char>, pw: Option<Seq<char>>) -> Seq<char> {
    user + ":"@ + pw_chars(pw)
}

/// The full Basic authentication header value for a user and password.
pub open spec fn auth_header_chars(user: Seq<char>, pw: Option<Seq<char>>) -> Seq<char> {
    "Basic "@ + base64_of(credential_chars(user, pw))
}

/// The Basic authentication header for this connection, present exactly
/// when a username is configured, computed fresh from the credentials.
pub fn basic_auth_header(conn: &LokiConnectionInfo) -> (r: Option<String>)
    ensures
        r is Some <==> conn@.user is Some,
        conn@.user matches Some(u) ==> r matches Some(h) && h@ == auth_header_chars(u, conn@.pw),
{
    match &conn.user {
        Some(user) => {
            let mut cred = user.clone();
            cred.append(":");
            if let Some(p) = &conn.pw {
                cred.append(p.as_str());
            }
            proof {
                assert(cred@ == credential_chars(conn@.user->Some_0, conn@.pw));
            }
            let b64 = base64_encode(cred.as_str());
            let mut h = String::from_str("Basic ");
            h.append(b64.as_str());
            Some(h)
        },
        None => None,
    }
}

/// The query pairs of one tail subscription: the selector, the result cap,
/// and the start anchor in nanoseconds.
pub open spec fn tail_pairs(query: Seq<char>, start_ns: u64) -> Seq<(Seq<char>, Seq<char>)> {
    seq![
        ("query"@, query),
        ("limit"@, "5000"@),
        ("start"@, dec_digits(start_ns as nat)),
    ]
}

/// The query pairs of one windowed range query: the selector, the window
/// bounds in nanoseconds, and the fixed forward ordering direction.
pub open spec fn range_pairs(query: Seq<char>, start_ns: u64, end_ns: u64) -> Seq<
    (Seq<char>, Seq<char>),
> {
    seq![
        ("query"@, query),
        ("start"@, dec_digits(start_ns as nat)),
        ("end"@, dec_digits(end_ns as nat)),
        ("direction"@, "forward"@),
    ]
}

/// The tail-subscription URL: the endpoint upgraded to the secure streaming
/// scheme, with selector, result cap and start anchor as query parameters.
/// `None` exactly when the endpoint is not a usable URL.
pub fn tail_request_url(endpoint: &str, query: &str, start_ns: u64) -> (r: Option<String>)
    ensures
        r.deep_view() == url_with_scheme_of(endpoint@, "wss"@, tail_pairs(query@, start_ns)),
{
    let mut pairs: Vec<(String, String)> = Vec::new();
    pairs.push((String::from_str("query"), String::from_str(query)));
    pairs.push((String::from_str("limit"), String::from_str("5000")));
    pairs.push((String::from_str("start"), u64_to_dec(start_ns)));
    proof {
        assert(pairs.deep_view() =~= tail_pairs(query@, start_ns));
    }
    build_url_with_scheme(endpoint, "wss", &pairs)
}

/// The windowed range-query URL: the endpoint on its own scheme, with
/// selector, window bounds and forward direction as query parameters.
/// `None` exactly when the endpoint is not a usable URL.
pub fn range_request_url(endpoint: &str, query: &str, start_ns: u64, end_ns: u64) -> (r: Option<
    String,
>)
    ensures
        r.deep_view() == url_query_of(endpoint@, range_pairs(query@, start_ns, end_ns)),
{
    let mut pairs: Vec<(String, String)> = Vec::new();
    pairs.push((String::from_str("query"), String::from_str(query)));
    pairs.push((String::from_str("start"), u64_to_dec(start_ns)));
    pairs.push((String::from_str("end"), u64_to_dec(end_ns)));
    pairs.push((String::from_str("direction"), String::from_str("forward")));
    proof {
        assert(pairs.deep_view() =~= range_pairs(query@, start_ns, end_ns));
    }
    build_query_url(endpoint, &pairs)
}

} // verus!
