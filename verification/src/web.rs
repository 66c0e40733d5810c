use vstd::prelude::*;
use vstd::utf8::encode_utf8;
use crate::error::{RmxError, ErrorView};

verus! {

/// The service that answers with the caller's public address.
pub const PUBLIC_IP_URL: &'static str = "https://api.ipify.org";

/// The keys of the headers that an echo service reports back.
#[derive(Debug)]
pub struct ResponseHeaders {
    pub accept: String,
    pub host: String,
    pub dynamic: std::collections::HashMap<String, String>,
}

/// A byte that percent-encoding keeps as it is: an ASCII letter or digit,
/// '-', '.', '_' or '~'.
pub open spec fn is_unreserved(b: u8) -> bool {
    (48 <= b <= 57) || (65 <= b <= 90) || (97 <= b <= 122) || b == 45 || b == 46 || b == 95 || b == 126
}

/// An upper-case hexadecimal digit.
pub open spec fn hex_digit(d: u8) -> char {
    if d < 10 {
        (d + 48) as char
    } else {
        (d + 55) as char
    }
}

/// `bytes` percent-encoded: unreserved bytes as they are, every other byte
/// as '%' and two upper-case hexadecimal digits.
pub open spec fn percent_encode(bytes: Seq<u8>) -> Seq<char>
    decreases bytes.len(),
{
    if bytes.len() == 0 {
        Seq::empty()
    } else {
        let b = bytes.last();
        let piece = if is_unreserved(b) {
            seq![b as char]
        } else {
            seq!['%', hex_digit(b / 16), hex_digit(b % 16)]
        };
        percent_encode(bytes.drop_last()) + piece
    }
}

/// What `urlencoding::decode(value)` gives: `None` when the decoded bytes
/// are not UTF-8.
pub uninterp spec fn url_decoded(value: Seq<char>) -> Option<Seq<char>>;

/// Percent-encodes `value` with `urlencoding::encode`, which, as its
/// documentation says, encodes every UTF-8 byte but alphanumerics and
/// '-', '_', '.', '~' in upper-case hexadecimal.
#[verifier::external_body]
fn encode_with_crate(value: &str) -> (r: String)
    ensures
        r@ == percent_encode(encode_utf8(value@)),
{
    urlencoding::encode(value).into_owned()
}

/// Decodes percent-escapes with `urlencoding::decode`; the contract claims
/// that the result is what the name `url_decoded` gives, and that a text
/// made by `urlencoding::encode` decodes to what was encoded (each "%XX"
/// that `encode` writes turns back into its byte, every other byte stays,
/// and the bytes are the UTF-8 of the encoded text).
#[verifier::external_body]
fn decode_with_crate(value: &str) -> (r: Option<String>)
    ensures
        match r {
            Some(s) => url_decoded(value@) == Some(s@),
            None => url_decoded(value@) is None,
        },
        r matches Some(t) ==> forall|s: Seq<char>| #[trigger] percent_encode(encode_utf8(s)) == value@ ==> t@ == s,
        r is None ==> forall|s: Seq<char>| #[trigger] percent_encode(encode_utf8(s)) != value@,
{
    match urlencoding::decode(value) {
        Ok(s) => Some(s.into_owned()),
        Err(_) => None,
    }
}

/// `value` percent-encoded for a URL.
pub fn url_encode(value: &str) -> (r: String)
    ensures
        r@ == percent_encode(encode_utf8(value@)),
{
    encode_with_crate(value)
}

/// `value` with its percent-escapes decoded.
pub fn url_decode(value: &str) -> (r: String)
    requires
        url_decoded(value@) is Some,
    ensures
        url_decoded(value@) == Some(r@),
{
    match decode_with_crate(value) {
        Some(s) => s,
        None => String::new(),
    }
}

/// `value` with its percent-escapes decoded, or `None` when the decoded
/// bytes are not UTF-8. Decoding what `url_encode` made gives back the
/// encoded text.
pub fn try_url_decode(value: &str) -> (r: Option<String>)
    ensures
        match r {
            Some(s) => url_decoded(value@) == Some(s@),
            None => url_decoded(value@) is None,
        },
        forall|s: Seq<char>| #[trigger] percent_encode(encode_utf8(s)) == value@ ==> (r matches Some(t) && t@ == s),
{
    match decode_with_crate(value) {
        Some(_) => Some(url_decode(value)),
        None => None,
    }
}

/// The public address from the answer of the address service: for a
/// success status (200 to 299) `answer` is the body, which is the address;
/// for any other status it is the text of the error that the HTTP client
/// reports for that status, and the call fails with it.
pub fn get_public_ip(status: u16, answer: String) -> (r: Result<String, RmxError>)
    ensures
        200 <= status <= 299 ==> crate::error::view_text(r) == Ok::<Seq<char>, ErrorView>(answer@),
        !(200 <= status <= 299) ==> crate::error::view_text(r) == Err::<Seq<char>, ErrorView>(ErrorView::External(answer@)),
{
    if 200 <= status && status <= 299 {
        Ok(answer)
    } else {
        Err(RmxError::External(answer))
    }
}

/// Why a text is not a URL: it is a relative URL with no base to resolve it
/// against, or it is malformed in another way.
#[derive(Debug, Clone, Copy, PartialEq, Eq)]
pub enum UrlError {
    RelativeUrlWithoutBase,
    Other,
}

/// What `url::Url::parse(input)` gives: the URL in its serialized form, or
/// why it failed together with the text of the error.
pub uninterp spec fn url_parse(input: Seq<char>) -> Result<Seq<char>, (UrlError, Seq<char>)>;

/// What `url::Url::join` gives for the URL serialized as `base` and the
/// reference `input`: the URL in its serialized form, or why it failed
/// together with the text of the error.
pub uninterp spec fn url_join(base: Seq<char>, input: Seq<char>) -> Result<Seq<char>, (UrlError, Seq<char>)>;

/// The view of a URL result.
pub open spec fn view_url(r: Result<String, (UrlError, String)>) -> Result<Seq<char>, (UrlError, Seq<char>)> {
    match r {
        Ok(s) => Ok(s@),
        Err((k, m)) => Err((k, m@)),
    }
}

/// Parses `input` with `url::Url::parse` and serializes the URL; the
/// contract claims only that the result is what the name `url_parse` gives.
#[verifier::external_body]
fn parse_url(input: &str) -> (r: Result<String, (UrlError, String)>)
    ensures
        view_url(r) == url_parse(input@),
{
    match url::Url::parse(input) {
        Ok(u) => Ok(u.as_str().to_owned()),
        Err(e @ url::ParseError::RelativeUrlWithoutBase) => Err((UrlError::RelativeUrlWithoutBase, e.to_string())),
        Err(e) => Err((UrlError::Other, e.to_string())),
    }
}

/// Resolves `input` against the URL serialized as `base` with
/// `url::Url::join`; the contract claims only that the result is what the
/// name `url_join` gives.
#[verifier::external_body]
fn join_url(base: &str, input: &str) -> (r: Result<String, (UrlError, String)>)
    ensures
        view_url(r) == url_join(base@, input@),
{
    match url::Url::parse(base) {
        Ok(b) => match b.join(input) {
            Ok(u) => Ok(u.as_str().to_owned()),
            Err(e @ url::ParseError::RelativeUrlWithoutBase) => Err((UrlError::RelativeUrlWithoutBase, e.to_string())),
            Err(e) => Err((UrlError::Other, e.to_string())),
        },
        Err(e) => Err((UrlError::Other, e.to_string())),
    }
}

/// The base that a relative URL is resolved against.
pub const LOCALHOST: &'static str = "http://localhost";

/// A URL, or the error that the `url` crate reported, carried by its text.
pub open spec fn url_or_error(r: Result<Seq<char>, (UrlError, Seq<char>)>) -> Result<Seq<char>, ErrorView> {
    match r {
        Ok(u) => Ok(u),
        Err((_, m)) => Err(ErrorView::External(m)),
    }
}

/// The URL that `value` names: the local host for an empty text, the text
/// itself when it parses, a path resolved against the local host when it is
/// relative, and else the text percent-encoded; a failure is the error of
/// the last parse or join tried.
pub open spec fn spec_create(value: Seq<char>) -> Result<Seq<char>, ErrorView> {
    if value.len() == 0 {
        url_or_error(url_parse(LOCALHOST@))
    } else {
        match url_parse(value) {
            Ok(u) => Ok(u),
            Err((UrlError::RelativeUrlWithoutBase, _)) => match url_parse(LOCALHOST@) {
                Ok(b) => url_or_error(url_join(b, value)),
                Err((_, m)) => Err(ErrorView::External(m)),
            },
            Err((UrlError::Other, _)) => url_or_error(url_parse(percent_encode(encode_utf8(value)))),
        }
    }
}

fn lift_url(r: Result<String, (UrlError, String)>) -> (out: Result<String, RmxError>)
    ensures
        crate::error::view_text(out) == url_or_error(view_url(r)),
{
    match r {
        Ok(u) => Ok(u),
        Err((_, m)) => Err(RmxError::External(m)),
    }
}

/// The URL that `value` names, in its serialized form (see `spec_create`).
pub fn create(value: &str) -> (r: Result<String, RmxError>)
    ensures
        crate::error::view_text(r) == spec_create(value@),
{
    if value.is_empty() {
        return lift_url(parse_url(LOCALHOST));
    }
    match parse_url(value) {
        Ok(u) => Ok(u),
        Err((UrlError::RelativeUrlWithoutBase, _)) => match parse_url(LOCALHOST) {
            Ok(b) => lift_url(join_url(b.as_str(), value)),
            Err((_, m)) => Err(RmxError::External(m)),
        },
        Err((UrlError::Other, _)) => lift_url(parse_url(url_encode(value).as_str())),
    }
}

/// `base` with `component` resolved against it; `base` itself when the
/// component is empty.
pub open spec fn spec_append(base: Seq<char>, component: Seq<char>) -> Result<Seq<char>, ErrorView> {
    if component.len() == 0 {
        Ok(base)
    } else {
        url_or_error(url_join(base, component))
    }
}

/// `base` with `component` resolved against it (see `spec_append`).
pub fn append_if_not_empty(base: String, component: &str) -> (r: Result<String, RmxError>)
    ensures
        crate::error::view_text(r) == spec_append(base@, component@),
{
    if component.is_empty() {
        return Ok(base);
    }
    lift_url(join_url(base.as_str(), component))
}

/// The URL made of `parts`: the first names the base, and every part,
/// the first one included, is then resolved against it in turn; the first
/// error stops it.
pub open spec fn spec_as_url(parts: Seq<Seq<char>>) -> Result<Seq<char>, ErrorView>
    decreases parts.len(),
{
    if parts.len() <= 1 {
        match spec_create(parts[0]) {
            Ok(u) => spec_append(u, parts[0]),
            Err(e) => Err(e),
        }
    } else {
        match spec_as_url(parts.drop_last()) {
            Ok(u) => spec_append(u, parts.last()),
            Err(e) => Err(e),
        }
    }
}

/// Once a prefix of the parts gives an error, the whole list gives it.
proof fn lemma_as_url_err(ps: Seq<Seq<char>>, k: int)
    requires
        1 <= k <= ps.len(),
        spec_as_url(ps.take(k)) is Err,
    ensures
        spec_as_url(ps) == spec_as_url(ps.take(k)),
    decreases ps.len(),
{
    if k == ps.len() {
        assert(ps.take(k) =~= ps);
    } else {
        assert(ps.drop_last().take(k) =~= ps.take(k));
        lemma_as_url_err(ps.drop_last(), k);
    }
}

/// The URL made of `parts` (see `spec_as_url`).
pub fn as_url(parts: &Vec<&str>) -> (r: Result<String, RmxError>)
    requires
        parts@.len() > 0,
    ensures
        crate::error::view_text(r) == spec_as_url(crate::path::str_views(parts@)),
{
    let ghost ps = crate::path::str_views(parts@);
    let mut url = match create(parts[0]) {
        Ok(u) => u,
        Err(e) => {
            proof {
                assert(ps.take(1)[0] == ps[0]);
                lemma_as_url_err(ps, 1);
            }
            return Err(e);
        },
    };
    let mut i: usize = 0;
    while i < parts.len()
        invariant
            0 <= i <= parts@.len(),
            parts@.len() > 0,
            ps == crate::path::str_views(parts@),
            i == 0 ==> spec_create(ps[0]) == Ok::<Seq<char>, ErrorView>(url@),
            i > 0 ==> spec_as_url(ps.take(i as int)) == Ok::<Seq<char>, ErrorView>(url@),
        decreases parts.len() - i,
    {
        assert(ps.take(i + 1).drop_last() =~= ps.take(i as int));
        assert(ps.take(i + 1).last() == parts@[i as int]@);
        assert(ps.take(1)[0] == ps[0]);
        let next = append_if_not_empty(url, parts[i]);
        match next {
            Ok(u) => {
                url = u;
            },
            Err(e) => {
                proof {
                    lemma_as_url_err(ps, i + 1);
                }
                return Err(e);
            },
        }
        i = i + 1;
    }
    assert(ps.take(parts@.len() as int) =~= ps);
    Ok(url)
}

} // verus!
