//! What the library reads of a parsed URL.

use crate::text::{option_string_eq, option_text, option_texts, str_eq, strings_eq};
use vstd::prelude::*;
use vstd::std_specs::cmp::PartialEqSpecImpl;

verus! {

/// The components of an absolute URL, each as the parser serialised it.
#[derive(Debug)]
pub struct ParsedUrl {
    /// The whole URL.
    pub text: String,
    /// The scheme, without the colon.
    pub scheme: String,
    /// The host, if the URL has one.
    pub host: Option<String>,
    /// The host, if the URL has one and it is a domain name.
    pub domain: Option<String>,
    /// The segments of the path, still percent-encoded; none where the URL
    /// cannot be a base.
    pub path_segments: Option<Vec<String>>,
    /// The query, without the question mark.
    pub query: Option<String>,
    /// The fragment, without the hash sign.
    pub fragment: Option<String>,
}

/// The components of a URL as mathematical values.
pub ghost struct UrlRecord {
    pub text: Seq<char>,
    pub scheme: Seq<char>,
    pub host: Option<Seq<char>>,
    pub domain: Option<Seq<char>>,
    pub path_segments: Option<Seq<Seq<char>>>,
    pub query: Option<Seq<char>>,
    pub fragment: Option<Seq<char>>,
}

impl View for ParsedUrl {
    type V = UrlRecord;

    open spec fn view(&self) -> UrlRecord {
        UrlRecord {
            text: self.text@,
            scheme: self.scheme@,
            host: option_text(self.host),
            domain: option_text(self.domain),
            path_segments: option_texts(self.path_segments),
            query: option_text(self.query),
            fragment: option_text(self.fragment),
        }
    }
}

/// Why a text is no absolute URL.
#[derive(Debug)]
pub struct InvalidUrl {
    pub reason: url::ParseError,
}

/// `url::ParseError`, carried as it comes: nothing is known of what it holds.
#[verifier::external_type_specification]
#[verifier::external_body]
pub struct ExParseError(url::ParseError);

/// What `url::Url::parse` makes of `input`: the components of the URL, or
/// nothing where it rejects the text.
pub uninterp spec fn url_record(input: Seq<char>) -> Option<UrlRecord>;

/// `url::Url::parse`, and the accessors `as_str`, `scheme`, `host_str`,
/// `domain`, `path_segments`, `query` and `fragment` of the URL that it gives.
#[verifier::external_body]
fn parse_components(input: &str) -> (parsed: Result<ParsedUrl, url::ParseError>)
    ensures
        parsed matches Ok(url) ==> url_record(input@) == Some(url@),
        parsed is Err ==> url_record(input@) is None,
{
    let url = url::Url::parse(input)?;
    Ok(ParsedUrl {
        text: url.as_str().to_owned(),
        scheme: url.scheme().to_owned(),
        host: url.host_str().map(str::to_owned),
        domain: url.domain().map(str::to_owned),
        path_segments: url.path_segments().map(|parts| parts.map(str::to_owned).collect()),
        query: url.query().map(str::to_owned),
        fragment: url.fragment().map(str::to_owned),
    })
}

impl ParsedUrl {
    /// Parses an absolute URL.
    pub fn parse(input: &str) -> (parsed: Result<ParsedUrl, InvalidUrl>)
        ensures
            parsed matches Ok(url) ==> url_record(input@) == Some(url@),
            parsed is Err ==> url_record(input@) is None,
    {
        match parse_components(input) {
            Ok(url) => Ok(url),
            Err(reason) => Err(InvalidUrl { reason }),
        }
    }

    /// The URL as one text.
    pub fn as_str(&self) -> (text: &str)
        ensures
            text@ == self@.text,
    {
        self.text.as_str()
    }

    /// Whether the scheme of the URL is `https`.
    pub fn is_https(&self) -> (https: bool)
        ensures
            https == (self@.scheme == "https"@),
    {
        str_eq(self.scheme.as_str(), "https")
    }
}

fn option_strings_eq(a: &Option<Vec<String>>, b: &Option<Vec<String>>) -> (same: bool)
    ensures
        same == (option_texts(*a) == option_texts(*b)),
{
    match (a, b) {
        (Some(x), Some(y)) => strings_eq(x, y),
        (None, None) => true,
        _ => false,
    }
}

impl PartialEq for ParsedUrl {
    fn eq(&self, other: &Self) -> (same: bool) {
        str_eq(self.text.as_str(), other.text.as_str()) && str_eq(
            self.scheme.as_str(),
            other.scheme.as_str(),
        ) && option_string_eq(&self.host, &other.host) && option_string_eq(
            &self.domain,
            &other.domain,
        ) && option_strings_eq(&self.path_segments, &other.path_segments) && option_string_eq(
            &self.query,
            &other.query,
        ) && option_string_eq(&self.fragment, &other.fragment)
    }
}

impl PartialEqSpecImpl for ParsedUrl {
    open spec fn obeys_eq_spec() -> bool {
        true
    }

    open spec fn eq_spec(&self, other: &Self) -> bool {
        self@ == other@
    }
}

} // verus!
