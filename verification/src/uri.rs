//! Where a ledger is distributed to, as a URL says it.
//!
//! `s3://bucket/path?region=name` names a path in an S3 bucket,
//! `file:///path` a local directory. URLs are parsed by the url crate.

use vstd::prelude::*;
use vstd::string::{StrSliceExecFns, StringExecFns};
use crate::decimal::{decimal, decimal_string};

verus! {

/// Whether `Url::parse` takes a string for a URL.
pub uninterp spec fn url_parses(src: Seq<char>) -> bool;

/// The scheme of the URL that a string parses to: what `Url::scheme`
/// returns.
pub uninterp spec fn url_scheme(src: Seq<char>) -> Seq<char>;

/// The part from the host to the end of the path in the URL that a string
/// parses to: the URL's slice from `Position::BeforeHost` to
/// `Position::AfterPath`.
pub uninterp spec fn url_host_and_path(src: Seq<char>) -> Seq<char>;

/// The keys and values of the query of the URL that a string parses to, in
/// their order: what `Url::query_pairs` yields.
pub uninterp spec fn url_query_pairs(src: Seq<char>) -> Seq<(Seq<char>, Seq<char>)>;

/// The error type of the url crate's parser. Nothing is known of a value
/// of it; it is carried to the caller as it came.
#[verifier::external_type_specification]
#[verifier::external_body]
pub struct ExUrlParseError(url::ParseError);

/// A key of a URL's query with its value.
#[derive(Clone, Debug, PartialEq, Eq)]
pub struct QueryPair {
    pub key: String,
    pub value: String,
}

/// The keys and values of query pairs.
pub open spec fn pairs_view(pairs: Seq<QueryPair>) -> Seq<(Seq<char>, Seq<char>)> {
    Seq::new(pairs.len(), |i: int| (pairs[i].key@, pairs[i].value@))
}

/// Calls `Url::parse` and hands its error on, if it returns one.
#[verifier::external_body]
fn check_url(src: &str) -> (r: Result<(), url::ParseError>)
    ensures
        r.is_ok() == url_parses(src@),
{
    url::Url::parse(src).map(|_| ())
}

/// Calls `Url::scheme` on the URL that `src` parses to.
#[verifier::external_body]
fn scheme_of(src: &str) -> (scheme: String)
    requires
        url_parses(src@),
    ensures
        scheme@ == url_scheme(src@),
{
    url::Url::parse(src).unwrap().scheme().to_string()
}

/// Slices the URL that `src` parses to from `Position::BeforeHost` to
/// `Position::AfterPath`.
#[verifier::external_body]
fn host_and_path_of(src: &str) -> (part: String)
    requires
        url_parses(src@),
    ensures
        part@ == url_host_and_path(src@),
{
    url::Url::parse(src).unwrap()[url::Position::BeforeHost..url::Position::AfterPath].to_string()
}

/// Calls `Url::query_pairs` on the URL that `src` parses to and collects
/// what it yields.
#[verifier::external_body]
fn query_pairs_of(src: &str) -> (pairs: Vec<QueryPair>)
    requires
        url_parses(src@),
    ensures
        pairs_view(pairs@) == url_query_pairs(src@),
{
    url::Url::parse(src).unwrap().query_pairs().map(
        |(k, v)| QueryPair { key: k.to_string(), value: v.to_string() },
    ).collect()
}

/// Where blocks are stored.
#[derive(Clone, Debug, PartialEq, Eq)]
pub enum Destination {
    /// A path in an S3 bucket, the bucket's name first. `region` is the
    /// name of the bucket's region as the URL gave it, which the caller
    /// resolves; `None` stands for the default region.
    S3 { path: String, region: Option<String> },
    /// A local directory.
    Local { path: String },
}

/// A URL with the destination that it names.
#[derive(Clone, Debug, PartialEq, Eq)]
pub struct Uri {
    /// The URL as it was given.
    pub url: String,
    pub destination: Destination,
}

/// Why a string names no destination.
#[derive(Debug)]
pub enum UriParseError {
    /// The string is no URL.
    UrlParse(url::ParseError),
    /// The URL's scheme is neither `s3` nor `file`.
    UnknownScheme(String),
    /// The URL has no path.
    MissingPath,
}

/// `s` without the `c`s at its start.
pub open spec fn without_leading(s: Seq<char>, c: char) -> Seq<char>
    decreases s.len(),
{
    if s.len() > 0 && s[0] == c {
        without_leading(s.skip(1), c)
    } else {
        s
    }
}

/// `s` without the `c`s at its end.
pub open spec fn without_trailing(s: Seq<char>, c: char) -> Seq<char>
    decreases s.len(),
{
    if s.len() > 0 && s.last() == c {
        without_trailing(s.drop_last(), c)
    } else {
        s
    }
}

/// `s` without the `c`s at its start and at its end.
pub open spec fn trimmed(s: Seq<char>, c: char) -> Seq<char> {
    without_trailing(without_leading(s, c), c)
}

/// The value of the first pair whose key is `region` and whose value is
/// not empty.
pub open spec fn region_param(pairs: Seq<(Seq<char>, Seq<char>)>) -> Option<Seq<char>>
    decreases pairs.len(),
{
    if pairs.len() == 0 {
        None
    } else if pairs[0].0 == "region"@ && pairs[0].1.len() > 0 {
        Some(pairs[0].1)
    } else {
        region_param(pairs.skip(1))
    }
}

/// What the parts of a URL name.
pub enum Named {
    S3 { path: Seq<char>, region: Option<Seq<char>> },
    Local { path: Seq<char> },
    MissingPath,
    UnknownScheme(Seq<char>),
}

/// What a URL with given scheme, host and path, and query names.
pub open spec fn named_by(
    scheme: Seq<char>,
    host_and_path: Seq<char>,
    query_pairs: Seq<(Seq<char>, Seq<char>)>,
) -> Named {
    if scheme == "s3"@ {
        if trimmed(host_and_path, '/').len() == 0 {
            Named::MissingPath
        } else {
            Named::S3 { path: trimmed(host_and_path, '/'), region: region_param(query_pairs) }
        }
    } else if scheme == "file"@ {
        if without_trailing(host_and_path, '/').len() == 0 {
            Named::MissingPath
        } else {
            Named::Local { path: without_trailing(host_and_path, '/') }
        }
    } else {
        Named::UnknownScheme(scheme)
    }
}

/// Whether a result says what `named` says.
pub open spec fn says(r: Result<Destination, UriParseError>, named: Named) -> bool {
    match named {
        Named::S3 { path, region } => r matches Ok(Destination::S3 { path: p, region: g }) && p@
            == path && match region {
            Some(name) => g is Some && g.unwrap()@ == name,
            None => g is None,
        },
        Named::Local { path } => r matches Ok(Destination::Local { path: p }) && p@ == path,
        Named::MissingPath => r matches Err(UriParseError::MissingPath),
        Named::UnknownScheme(scheme) => r matches Err(UriParseError::UnknownScheme(s)) && s@
            == scheme,
    }
}

/// Whether two strings hold the same characters.
fn str_equal(a: &str, b: &str) -> (same: bool)
    ensures
        same == (a@ == b@),
{
    String::from_str(a) == String::from_str(b)
}

/// The string from its first character that is not `c`.
fn trim_start<'a>(s: &'a str, c: char) -> (rest: &'a str)
    ensures
        rest@ == without_leading(s@, c),
{
    let n: usize = s.unicode_len();
    let mut i: usize = 0;
    proof {
        assert(s@.skip(0) =~= s@);
    }
    while i < n && s.get_char(i) == c
        invariant
            0 <= i <= n,
            n == s@.len(),
            without_leading(s@, c) == without_leading(s@.skip(i as int), c),
        decreases n - i,
    {
        proof {
            assert(s@.skip(i as int)[0] == s@[i as int]);
            assert(s@.skip(i as int).skip(1) =~= s@.skip(i + 1));
        }
        i += 1;
    }
    proof {
        if i < n {
            assert(s@.skip(i as int)[0] == s@[i as int]);
        }
        assert(s@.skip(i as int) =~= s@.subrange(i as int, n as int));
    }
    s.substring_char(i, n)
}

/// The string up to its last character that is not `c`.
fn trim_end<'a>(s: &'a str, c: char) -> (rest: &'a str)
    ensures
        rest@ == without_trailing(s@, c),
{
    let n: usize = s.unicode_len();
    let mut j: usize = n;
    proof {
        assert(s@.take(n as int) =~= s@);
    }
    while j > 0 && s.get_char(j - 1) == c
        invariant
            0 <= j <= n,
            n == s@.len(),
            without_trailing(s@, c) == without_trailing(s@.take(j as int), c),
        decreases j,
    {
        proof {
            assert(s@.take(j as int).last() == s@[j - 1]);
            assert(s@.take(j as int).drop_last() =~= s@.take(j - 1));
        }
        j -= 1;
    }
    proof {
        if j > 0 {
            assert(s@.take(j as int).last() == s@[j - 1]);
        }
        assert(s@.take(0) =~= s@.take(n as int).take(0));
        assert(s@.take(n as int) =~= s@);
        assert(s@.take(j as int) =~= s@.subrange(0, j as int));
    }
    s.substring_char(0, j)
}

/// The value of the first pair whose key is `region` and whose value is
/// not empty.
fn find_region(pairs: &Vec<QueryPair>) -> (region: Option<String>)
    ensures
        match region_param(pairs_view(pairs@)) {
            Some(name) => region is Some && region.unwrap()@ == name,
            None => region is None,
        },
{
    let ghost all = pairs_view(pairs@);
    let n: usize = pairs.len();
    let mut i: usize = 0;
    proof {
        assert(all.skip(0) =~= all);
    }
    while i < n
        invariant
            0 <= i <= n,
            n == pairs@.len(),
            all == pairs_view(pairs@),
            region_param(all) == region_param(all.skip(i as int)),
        decreases n - i,
    {
        proof {
            assert(all.skip(i as int)[0] == all[i as int]);
            assert(all.skip(i as int).skip(1) =~= all.skip(i + 1));
        }
        if str_equal(pairs[i].key.as_str(), "region") && !pairs[i].value.as_str().is_empty() {
            return Some(pairs[i].value.clone());
        }
        i += 1;
    }
    None
}

/// The destination that a URL with given parts names.
pub fn destination_for(scheme: &str, host_and_path: &str, query_pairs: &Vec<QueryPair>) -> (r:
    Result<Destination, UriParseError>)
    ensures
        says(r, named_by(scheme@, host_and_path@, pairs_view(query_pairs@))),
{
    if str_equal(scheme, "s3") {
        let path: &str = trim_end(trim_start(host_and_path, '/'), '/');
        if path.is_empty() {
            return Err(UriParseError::MissingPath);
        }
        let region: Option<String> = find_region(query_pairs);
        Ok(Destination::S3 { path: String::from_str(path), region })
    } else if str_equal(scheme, "file") {
        let path: &str = trim_end(host_and_path, '/');
        if path.is_empty() {
            return Err(UriParseError::MissingPath);
        }
        Ok(Destination::Local { path: String::from_str(path) })
    } else {
        Err(UriParseError::UnknownScheme(String::from_str(scheme)))
    }
}

impl Uri {
    /// Reads a destination off a URL.
    pub fn from_str(src: &str) -> (r: Result<Uri, UriParseError>)
        ensures
            !url_parses(src@) ==> r matches Err(UriParseError::UrlParse(_)),
            url_parses(src@) ==> says(
                match r {
                    Ok(uri) => Ok(uri.destination),
                    Err(e) => Err(e),
                },
                named_by(url_scheme(src@), url_host_and_path(src@), url_query_pairs(src@)),
            ),
            r matches Ok(uri) ==> uri.url@ == src@,
    {
        match check_url(src) {
            Err(e) => {
                return Err(UriParseError::UrlParse(e));
            },
            Ok(_) => {},
        }
        let scheme: String = scheme_of(src);
        let host_and_path: String = host_and_path_of(src);
        let query_pairs: Vec<QueryPair> = query_pairs_of(src);
        match destination_for(scheme.as_str(), host_and_path.as_str(), &query_pairs) {
            Ok(destination) => Ok(Uri { url: String::from_str(src), destination }),
            Err(e) => Err(e),
        }
    }
}

/// The URL of the consensus node with a given number in a test network.
pub fn test_client_uri(node_id: u32) -> (uri: String)
    ensures
        uri@ == "mc://node"@ + decimal(node_id as nat) + ".test.com/"@,
{
    String::from_str("mc://node").concat(decimal_string(node_id as u64).as_str()).concat(
        ".test.com/",
    )
}

} // verus!
