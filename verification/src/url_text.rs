//! URLs as text, read and resolved by the `url` crate.

use vstd::prelude::*;
use vstd::string::*;

verus! {

/// The error that the `url` crate reports for text it cannot read as a URL.
#[verifier::external_type_specification]
#[verifier::external_body]
pub struct ExParseError(url::ParseError);

/// The URL that the `url` crate reads from `input`, written out again as
/// text, or `None` where it reports an error.
pub uninterp spec fn url_parse(input: Seq<char>) -> Option<Seq<char>>;

/// The URL that the `url` crate resolves `reference` to against the URL that
/// it reads from `base`, written out as text, or `None` where it reports an
/// error for either of the two.
pub uninterp spec fn url_join(base: Seq<char>, reference: Seq<char>) -> Option<Seq<char>>;

/// `base` with a `/` appended unless it already ends with one.
pub open spec fn with_trailing_slash(base: Seq<char>) -> Seq<char> {
    if base.len() > 0 && base.last() == '/' {
        base
    } else {
        base.push('/')
    }
}

/// The text that a base URL is read from ends with `/`: it is the given text
/// where that ends with `/`, and the given text with one `/` appended where it
/// does not. Appending a second time changes nothing.
pub proof fn lemma_trailing_slash(base: Seq<char>)
    ensures
        with_trailing_slash(base).len() > 0,
        with_trailing_slash(base).last() == '/',
        base.len() > 0 && base.last() == '/' ==> with_trailing_slash(base) == base,
        !(base.len() > 0 && base.last() == '/') ==> with_trailing_slash(base) == base + seq!['/'],
        with_trailing_slash(with_trailing_slash(base)) == with_trailing_slash(base),
{
    if !(base.len() > 0 && base.last() == '/') {
        assert(base.push('/') =~= base + seq!['/']);
    }
}

/// Calls `url::Url::parse` and hands back the URL's serialization. The
/// contract claims that the outcome depends on `input` alone and is the one
/// that `url_parse` names.
#[verifier::external_body]
pub(crate) fn parse_url(input: &str) -> (parsed: Result<String, url::ParseError>)
    ensures
        match parsed {
            Ok(text) => url_parse(input@) == Some(text@),
            Err(_) => url_parse(input@) is None,
        },
{
    url::Url::parse(input).map(String::from)
}

/// Reads `base` with `url::Url::parse`, calls `url::Url::join` on it with
/// `reference`, and hands back the serialization of the result. The contract
/// claims that the outcome depends on the two texts alone and is the one that
/// `url_join` names.
#[verifier::external_body]
pub(crate) fn join_url(base: &str, reference: &str) -> (joined: Result<
    String,
    url::ParseError,
>)
    ensures
        match joined {
            Ok(text) => url_join(base@, reference@) == Some(text@),
            Err(_) => url_join(base@, reference@) is None,
        },
{
    url::Url::parse(base)?.join(reference).map(String::from)
}

/// Calls the `Display` implementation of `url::ParseError`. Nothing is
/// claimed of the message.
#[verifier::external_body]
pub(crate) fn parse_error_message(error: &url::ParseError) -> (message: String) {
    error.to_string()
}

/// Appends a `/` to `base` unless it already ends with one, so that the last
/// segment of its path is kept when a relative path is resolved against it.
pub fn normalize_base_url(base: &str) -> (normalized: String)
    ensures
        normalized@ == with_trailing_slash(base@),
{
    let count = base.unicode_len();
    let mut normalized = String::from_str(base);
    if count == 0 || base.get_char(count - 1) != '/' {
        proof {
            reveal_strlit("/");
        }
        normalized.append("/");
        assert(normalized@ =~= base@.push('/'));
    }
    normalized
}

} // verus!
