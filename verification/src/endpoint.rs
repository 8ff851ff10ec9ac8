//! Resolution of the configured collector endpoint.
//!
//! A configuration value is either the word `default`, which selects the
//! agent's own well-known address, or the text of a URL. A text that does not
//! begin with `<scheme>://` is given the scheme `http` before it is validated.

use vstd::prelude::*;
use vstd::string::StrSliceExecFns;
use vstd::string::StringExecFns;

use crate::error::TracingError;
use crate::error::TracingErrorView;
use crate::text::str_eq;
use crate::text::trim_trailing;
use crate::text::trim_trailing_slashes;

verus! {

/// The configuration value that selects the agent's own address.
pub const DEFAULT_ENDPOINT: &'static str = "default";

/// What is put in front of a configured text that names no scheme.
pub const DEFAULT_SCHEME_PREFIX: &'static str = "http://";

/// Where the exporter sends its spans.
#[derive(Debug, Clone, PartialEq, Eq)]
pub enum Endpoint {
    /// The agent's well-known local address; no URL is carried.
    Default,
    /// A validated absolute URL, in the form in which the URL parser
    /// serializes it.
    Explicit(String),
}

/// An `Endpoint` with its URL as a character sequence.
pub enum EndpointView {
    Default,
    Explicit(Seq<char>),
}

impl View for Endpoint {
    type V = EndpointView;

    open spec fn view(&self) -> EndpointView {
        match self {
            Endpoint::Default => EndpointView::Default,
            Endpoint::Explicit(url) => EndpointView::Explicit(url@),
        }
    }
}

/// A character that may open a scheme: an ASCII letter.
pub open spec fn is_scheme_start(c: char) -> bool {
    ('a' <= c && c <= 'z') || ('A' <= c && c <= 'Z')
}

/// A character that may stand in a scheme: an ASCII letter or digit, `+`, `-`
/// or `.`.
pub open spec fn is_scheme_char(c: char) -> bool {
    is_scheme_start(c) || ('0' <= c && c <= '9') || c == '+' || c == '-' || c == '.'
}

/// `s` begins with a scheme of `k` characters that `://` follows.
pub open spec fn scheme_ends_at(s: Seq<char>, k: int) -> bool {
    &&& 1 <= k
    &&& k + 3 <= s.len()
    &&& is_scheme_start(s[0])
    &&& forall|i: int| 0 <= i < k ==> is_scheme_char(#[trigger] s[i])
    &&& s[k] == ':'
    &&& s[k + 1] == '/'
    &&& s[k + 2] == '/'
}

/// `s` has the form `<scheme>://...`.
pub open spec fn has_scheme(s: Seq<char>) -> bool {
    exists|k: int| scheme_ends_at(s, k)
}

/// `s` itself where it names a scheme, else `s` behind `http://`.
pub open spec fn normalized(s: Seq<char>) -> Seq<char> {
    if has_scheme(s) {
        s
    } else {
        DEFAULT_SCHEME_PREFIX@ + s
    }
}

fn scheme_start(c: char) -> (yes: bool)
    ensures
        yes == is_scheme_start(c),
{
    ('a' <= c && c <= 'z') || ('A' <= c && c <= 'Z')
}

fn scheme_char(c: char) -> (yes: bool)
    ensures
        yes == is_scheme_char(c),
{
    scheme_start(c) || ('0' <= c && c <= '9') || c == '+' || c == '-' || c == '.'
}

/// Whether the text begins with `<scheme>://`.
pub fn names_scheme(text: &str) -> (yes: bool)
    ensures
        yes == has_scheme(text@),
{
    let n = text.unicode_len();
    if n == 0 || !scheme_start(text.get_char(0)) {
        return false;
    }
    let mut k: usize = 1;
    while k < n && scheme_char(text.get_char(k))
        invariant
            n == text@.len(),
            1 <= k <= n,
            is_scheme_start(text@[0]),
            forall|i: int| 0 <= i < k ==> is_scheme_char(#[trigger] text@[i]),
        decreases n - k,
    {
        k += 1;
    }
    let found = n - k >= 3 && text.get_char(k) == ':' && text.get_char(k + 1) == '/'
        && text.get_char(k + 2) == '/';
    proof {
        if found {
            assert(scheme_ends_at(text@, k as int));
        } else {
            assert forall|j: int| !scheme_ends_at(text@, j) by {
                if scheme_ends_at(text@, j) {
                    if j < k {
                        assert(is_scheme_char(text@[j]));
                    } else if j > k {
                        assert(is_scheme_char(text@[k as int]));
                    }
                }
            }
        }
    }
    found
}

/// The text that is validated: the configured one, behind `http://` where it
/// names no scheme.
pub fn normalize_endpoint(text: &str) -> (full: String)
    ensures
        full@ == normalized(text@),
{
    if names_scheme(text) {
        text.to_owned()
    } else {
        let mut full = String::from_str(DEFAULT_SCHEME_PREFIX);
        full.append(text);
        full
    }
}

#[verifier::external_type_specification]
#[verifier::external_body]
pub struct ExParseError(url::ParseError);

/// What `url::Url::parse` makes of a text: the serialization of the URL it
/// parsed, or `None` where it rejects the text.
pub uninterp spec fn parsed_url(text: Seq<char>) -> Option<Seq<char>>;

/// Calls `url::Url::parse` on the text. On success the result is the
/// serialization of the parsed URL, which is what `parsed_url` names; an error
/// comes back exactly where `parsed_url` is `None`. Nothing is claimed about
/// which texts the parser accepts.
#[verifier::external_body]
fn parse_url(text: &str) -> (parsed: Result<String, url::ParseError>)
    ensures
        match parsed {
            Ok(url) => parsed_url(text@) == Some(url@),
            Err(_) => parsed_url(text@) is None,
        },
{
    url::Url::parse(text).map(String::from)
}

/// The endpoint that a validated text stands for, or the error for a text
/// that failed validation.
pub open spec fn validated(full: Seq<char>, parsed: Option<Seq<char>>) -> Result<
    EndpointView,
    TracingErrorView,
> {
    match parsed {
        Some(url) => Ok(EndpointView::Explicit(url)),
        None => Err(TracingErrorView::ConfigValidation { endpoint: full }),
    }
}

/// What a configuration value resolves to.
pub open spec fn resolved(s: Seq<char>) -> Result<EndpointView, TracingErrorView> {
    if s == DEFAULT_ENDPOINT@ {
        Ok(EndpointView::Default)
    } else {
        validated(normalized(s), parsed_url(normalized(s)))
    }
}

/// An explicit endpoint carries a URL that the parser gave for some text.
pub open spec fn carries_validated_url(endpoint: EndpointView) -> bool {
    endpoint matches EndpointView::Explicit(url) ==> exists|text: Seq<char>|
        parsed_url(text) == Some(url)
}

/// The view of a resolution's outcome.
pub open spec fn outcome_view(outcome: Result<Endpoint, TracingError>) -> Result<
    EndpointView,
    TracingErrorView,
> {
    match outcome {
        Ok(endpoint) => Ok(endpoint@),
        Err(error) => Err(error@),
    }
}

impl Endpoint {
    /// Turns the parser's verdict on the normalized text `full` into an
    /// endpoint: the parsed URL is carried as it is, and a rejection becomes
    /// a `ConfigValidation` error that names `full`.
    pub fn from_parsed(full: String, parsed: Result<String, url::ParseError>) -> (outcome: Result<
        Endpoint,
        TracingError,
    >)
        ensures
            outcome_view(outcome) == validated(
                full@,
                match parsed {
                    Ok(url) => Some(url@),
                    Err(_) => None,
                },
            ),
    {
        match parsed {
            Ok(url) => Ok(Endpoint::Explicit(url)),
            Err(_) => Err(TracingError::ConfigValidation { endpoint: full }),
        }
    }

    /// Resolves a configuration value: `default` gives `Default`; any other
    /// text is normalized and validated as a URL, and gives `Explicit` with
    /// the parsed URL or a `ConfigValidation` error.
    pub fn resolve(text: &str) -> (outcome: Result<Endpoint, TracingError>)
        ensures
            outcome_view(outcome) == resolved(text@),
    {
        if str_eq(text, DEFAULT_ENDPOINT) {
            return Ok(Endpoint::Default);
        }
        let full = normalize_endpoint(text);
        let parsed = parse_url(full.as_str());
        Endpoint::from_parsed(full, parsed)
    }

    /// The address to hand to the exporter: none for `Default`, so that the
    /// exporter keeps its own; for `Explicit` the URL without the `/`
    /// characters at its end.
    pub fn agent_address(&self) -> (address: Option<&str>)
        ensures
            match self@ {
                EndpointView::Default => address is None,
                EndpointView::Explicit(url) => address matches Some(a) && a@ == trim_trailing(
                    url,
                    '/',
                ),
            },
    {
        match self {
            Endpoint::Default => None,
            Endpoint::Explicit(url) => Some(trim_trailing_slashes(url.as_str())),
        }
    }
}

/// Whatever a configuration value resolves to is the default endpoint or
/// carries a validated URL.
pub proof fn lemma_resolved_is_validated(s: Seq<char>)
    ensures
        resolved(s) matches Ok(endpoint) ==> carries_validated_url(endpoint),
{
    if s != DEFAULT_ENDPOINT@ {
        let full = normalized(s);
        if let Some(url) = parsed_url(full) {
            assert(parsed_url(full) == Some(url));
        }
    }
}

/// A text that names no scheme, and is not the word `default`, resolves as
/// the same text behind `http://` does.
pub proof fn lemma_default_scheme(s: Seq<char>)
    requires
        !has_scheme(s),
        s != DEFAULT_ENDPOINT@,
    ensures
        resolved(s) == resolved(DEFAULT_SCHEME_PREFIX@ + s),
{
    reveal_strlit("default");
    reveal_strlit("http://");
    let full = DEFAULT_SCHEME_PREFIX@ + s;
    assert(full[0] == 'h');
    assert(full != DEFAULT_ENDPOINT@);
    assert(scheme_ends_at(full, 4));
    assert(normalized(full) == full);
}

} // verus!
