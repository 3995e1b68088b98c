//! Request URIs: a base URI, a path resolved against it, and query pairs.
//!
//! Parsing, resolving and encoding are the `url` crate's work. This module says
//! what is taken on trust from it and proves the composition built on top.

use url::ParseError;
use url::Url;
use vstd::prelude::*;
use vstd::utf8::encode_utf8;

verus! {

/// `url::Url`, a parsed absolute URL. Nothing of its inside is visible here.
#[verifier::external_type_specification]
#[verifier::external_body]
pub struct ExUrl(Url);

/// `url::ParseError`, the reason a text is not a URL.
#[verifier::external_type_specification]
#[verifier::external_body]
pub struct ExParseError(ParseError);

/// The URL that `Url::parse` reads from a text, if it reads one.
pub uninterp spec fn parsed(text: Seq<char>) -> Option<Url>;

/// The URL that `Url::join` resolves a reference to against a base, if any.
pub uninterp spec fn joined(base: Url, reference: Seq<char>) -> Option<Url>;

/// The serialization of a URL, as `Url::as_str` returns it.
pub uninterp spec fn url_text(url: Url) -> Seq<char>;

/// A URL after `Url::query_pairs_mut` has been called on it and the
/// serializer dropped: it has a query, empty if it had none.
pub uninterp spec fn query_opened(url: Url) -> Url;

/// A URL after one name and value have been appended to its query through
/// `Url::query_pairs_mut` and `Serializer::append_pair`.
pub uninterp spec fn pair_appended(url: Url, name: Seq<char>, value: Seq<char>) -> Url;

/// `Url::parse` is a function of its input: the same text gives the same URL,
/// or fails, every time.
pub assume_specification[ Url::parse ](input: &str) -> (r: Result<Url, ParseError>)
    ensures
        r.is_ok() == parsed(input@).is_some(),
        r matches Ok(u) ==> parsed(input@) == Some(u),
;

/// `Url::join` is a function of the base and of the reference.
pub assume_specification[ Url::join ](base: &Url, input: &str) -> (r: Result<Url, ParseError>)
    ensures
        r.is_ok() == joined(*base, input@).is_some(),
        r matches Ok(u) ==> joined(*base, input@) == Some(u),
;

/// `Url::as_str` hands out the URL's serialization.
pub assume_specification<'a>[ Url::as_str ](url: &'a Url) -> (r: &'a str)
    ensures
        r@ == url_text(*url),
;

/// The number of bytes that a text takes in UTF-8.
pub open spec fn byte_len(text: Seq<char>) -> nat {
    encode_utf8(text).len()
}

/// The `url` crate keeps positions within a serialization as `u32`: a URL can
/// be given a query only while its serialization is no longer than this.
pub open spec fn max_url_bytes() -> nat {
    0xFFFF_FFFF
}

/// A query can be opened on the URL.
pub open spec fn opens(url: Url) -> bool {
    byte_len(url_text(url)) <= max_url_bytes()
}

/// The pair can be appended to the URL's query: the serialization stays
/// within bounds even if every byte of the pair has to be escaped.
pub open spec fn takes_pair(url: Url, name: Seq<char>, value: Seq<char>) -> bool {
    byte_len(url_text(url)) + 3 * byte_len(name) + 3 * byte_len(value) + 2 <= max_url_bytes()
}

/// Calls `Url::query_pairs_mut` and drops the serializer it returns. The
/// call panics where the position of the query does not fit `u32`, which
/// `requires` rules out; the result is a function of the URL.
#[verifier::external_body]
fn open_query(url: Url) -> (r: Url)
    requires
        opens(url),
    ensures
        r == query_opened(url),
{
    let mut url = url;
    drop(url.query_pairs_mut());
    url
}

/// Calls `Url::query_pairs_mut` and `Serializer::append_pair`, then drops the
/// serializer. An escaped byte takes three bytes and the separators two, so
/// under `requires` no position outgrows `u32`; the result is a function of
/// the URL, the name and the value.
#[verifier::external_body]
fn append_pair(url: Url, name: &str, value: &str) -> (r: Url)
    requires
        takes_pair(url, name@, value@),
    ensures
        r == pair_appended(url, name@, value@),
{
    let mut url = url;
    url.query_pairs_mut().append_pair(name, value);
    url
}

/// The pairs of a query as sequences of characters.
pub open spec fn pairs_of(args: Seq<(String, String)>) -> Seq<(Seq<char>, Seq<char>)> {
    args.map_values(|pair: (String, String)| (pair.0@, pair.1@))
}

/// The URL after the pairs have been appended in order, or `None` if one of
/// them no longer fits.
pub open spec fn appended(url: Url, pairs: Seq<(Seq<char>, Seq<char>)>) -> Option<Url>
    decreases pairs.len(),
{
    if pairs.len() == 0 {
        Some(url)
    } else if !takes_pair(url, pairs[0].0, pairs[0].1) {
        None
    } else {
        appended(pair_appended(url, pairs[0].0, pairs[0].1), pairs.skip(1))
    }
}

/// The URL with a query made of the pairs, in order; `None` if the URL is too
/// long to be given one.
pub open spec fn with_query(url: Url, pairs: Seq<(Seq<char>, Seq<char>)>) -> Option<Url> {
    if opens(url) {
        appended(query_opened(url), pairs)
    } else {
        None
    }
}

/// The URL of a request: the path resolved against the base, with the query
/// pairs where there are any. `None` where the base is not an absolute URI,
/// the path does not resolve, or the query does not fit.
pub open spec fn located(
    base: Seq<char>,
    path: Seq<char>,
    args: Option<Seq<(Seq<char>, Seq<char>)>>,
) -> Option<Url> {
    match parsed(base) {
        None => None,
        Some(root) => match joined(root, path) {
            None => None,
            Some(url) => match args {
                None => Some(url),
                Some(pairs) => with_query(url, pairs),
            },
        },
    }
}

/// The text of [`located`].
pub open spec fn location(
    base: Seq<char>,
    path: Seq<char>,
    args: Option<Seq<(Seq<char>, Seq<char>)>>,
) -> Option<Seq<char>> {
    match located(base, path, args) {
        Some(url) => Some(url_text(url)),
        None => None,
    }
}

/// The text of the base URI itself, as the parser normalises it.
pub open spec fn base_location(base: Seq<char>) -> Option<Seq<char>> {
    match parsed(base) {
        Some(url) => Some(url_text(url)),
        None => None,
    }
}

/// Whether the text is an absolute URI.
pub fn is_absolute(text: &str) -> (b: bool)
    ensures
        b == parsed(text@).is_some(),
{
    Url::parse(text).is_ok()
}

/// The length of the URL's serialization, in bytes.
fn text_bytes(url: &Url) -> (n: usize)
    ensures
        n == byte_len(url_text(*url)),
{
    broadcast use vstd::slice::group_slice_axioms;

    url.as_str().as_bytes().len()
}

/// The length of a text, in bytes.
fn str_bytes(text: &str) -> (n: usize)
    ensures
        n == byte_len(text@),
{
    broadcast use vstd::slice::group_slice_axioms;

    text.as_bytes().len()
}

/// Appends one pair to the URL's query where it fits.
pub fn add_pair(url: Url, name: &str, value: &str) -> (r: Option<Url>)
    ensures
        r == if takes_pair(url, name@, value@) {
            Some(pair_appended(url, name@, value@))
        } else {
            None
        },
{
    let used: u128 = text_bytes(&url) as u128;
    let name_bytes: u128 = str_bytes(name) as u128;
    let value_bytes: u128 = str_bytes(value) as u128;
    if used + 3 * name_bytes + 3 * value_bytes + 2 <= 0xFFFF_FFFF {
        Some(append_pair(url, name, value))
    } else {
        None
    }
}

/// Gives the URL a query made of the pairs, in order.
pub fn add_query(url: Url, args: &Vec<(String, String)>) -> (r: Option<Url>)
    ensures
        r == with_query(url, pairs_of(args@)),
{
    if text_bytes(&url) as u128 > 0xFFFF_FFFF {
        return None;
    }
    let ghost pairs = pairs_of(args@);
    let ghost whole = with_query(url, pairs);
    let mut current = open_query(url);
    let mut i: usize = 0;
    assert(pairs.skip(0) == pairs);
    while i < args.len()
        invariant
            i <= args.len(),
            pairs == pairs_of(args@),
            whole == with_query(url, pairs),
            appended(current, pairs.skip(i as int)) == whole,
        decreases args.len() - i,
    {
        let ghost rest = pairs.skip(i as int);
        assert(rest.len() > 0);
        assert(rest[0] == (args@[i as int].0@, args@[i as int].1@));
        assert(rest.skip(1) == pairs.skip(i + 1));
        match add_pair(current, args[i].0.as_str(), args[i].1.as_str()) {
            Some(next) => {
                current = next;
            },
            None => {
                return None;
            },
        }
        i += 1;
    }
    assert(pairs.skip(i as int).len() == 0);
    Some(current)
}

/// The text of the base URI, where it is absolute.
pub fn base_uri(base: &str) -> (r: Option<String>)
    ensures
        match base_location(base@) {
            Some(text) => r matches Some(s) && s@ == text,
            None => r is None,
        },
{
    match Url::parse(base) {
        Ok(url) => Some(url.as_str().to_owned()),
        Err(_) => None,
    }
}

/// The text of the URL of a request: `path` resolved against `base`, then
/// the pairs of `args` appended as its query.
pub fn request_uri(base: &str, path: &str, args: Option<&Vec<(String, String)>>) -> (r: Option<
    String,
>)
    ensures
        match location(
            base@,
            path@,
            match args {
                Some(pairs) => Some(pairs_of(pairs@)),
                None => None,
            },
        ) {
            Some(text) => r matches Some(s) && s@ == text,
            None => r is None,
        },
{
    let root = match Url::parse(base) {
        Ok(url) => url,
        Err(_) => {
            return None;
        },
    };
    let resolved = match root.join(path) {
        Ok(url) => url,
        Err(_) => {
            return None;
        },
    };
    let full = match args {
        None => resolved,
        Some(pairs) => match add_query(resolved, pairs) {
            Some(url) => url,
            None => {
                return None;
            },
        },
    };
    Some(full.as_str().to_owned())
}

} // verus!
