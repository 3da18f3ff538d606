//! Web addresses: the parts of a parsed URL that the shell's rules read.

use vstd::prelude::*;

verus! {

/// A parsed absolute URL, reduced to what the rules of this crate read.
pub struct ParsedUrl {
    /// The URL as the parser writes it back.
    pub text: String,
    /// The scheme, without the `:`.
    pub scheme: String,
    /// The host, where the URL has one.
    pub host: Option<String>,
}

/// The mathematical value of a [`ParsedUrl`].
pub struct UrlView {
    pub text: Seq<char>,
    pub scheme: Seq<char>,
    pub host: Option<Seq<char>>,
}

impl View for ParsedUrl {
    type V = UrlView;

    open spec fn view(&self) -> UrlView {
        UrlView {
            text: self.text@,
            scheme: self.scheme@,
            host: match self.host {
                Some(h) => Some(h@),
                None => None,
            },
        }
    }
}

/// What parsing `raw` as an absolute URL gives: the parts of the URL, or the
/// text of the parser's complaint.
pub uninterp spec fn url_parse_outcome(raw: Seq<char>) -> Result<UrlView, Seq<char>>;

/// View of the outcome of parsing.
pub open spec fn parse_view(r: Result<ParsedUrl, String>) -> Result<UrlView, Seq<char>> {
    match r {
        Ok(u) => Ok(u@),
        Err(e) => Err(e@),
    }
}

/// Calls `url::Url::parse` on `raw`. Of a URL that parses, the result holds
/// its serialisation (`as_str`), its scheme (`scheme`) and its host
/// (`host_str`); of one that does not, the text that the parser's error
/// displays. Nothing is claimed of these but that they depend on `raw` alone.
#[verifier::external_body]
fn parse_absolute_url(raw: &str) -> (out: Result<ParsedUrl, String>)
    ensures
        parse_view(out) == url_parse_outcome(raw@),
{
    match ::url::Url::parse(raw) {
        Ok(parsed) => Ok(
            ParsedUrl {
                text: parsed.as_str().to_string(),
                scheme: parsed.scheme().to_string(),
                host: parsed.host_str().map(String::from),
            },
        ),
        Err(error) => Err(error.to_string()),
    }
}

impl ParsedUrl {
    /// Parses `raw` as an absolute URL.
    pub fn parse(raw: &str) -> (out: Result<ParsedUrl, String>)
        ensures
            parse_view(out) == url_parse_outcome(raw@),
    {
        parse_absolute_url(raw)
    }

    /// A second value with the same parts.
    pub fn duplicate(&self) -> (out: ParsedUrl)
        ensures
            out@ == self@,
    {
        ParsedUrl {
            text: self.text.clone(),
            scheme: self.scheme.clone(),
            host: match &self.host {
                Some(h) => Some(h.clone()),
                None => None,
            },
        }
    }
}

} // verus!
