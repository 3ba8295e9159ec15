use vstd::prelude::*;
use crate::error::{Error, ErrorView};

verus! {

/// What `url::Url::parse` makes of a text: the serialisation of the URL it
/// reads, or nothing where the text is no absolute URL.
pub uninterp spec fn parsed_url(input: Seq<char>) -> Option<Seq<char>>;

/// `url::Url::parse`, followed by the serialisation of the URL: the text is
/// parsed as an absolute URL, and the result is handed back in its normal
/// written form.
#[verifier::external_body]
fn parse_url(input: &str) -> (r: Option<String>)
    ensures
        crate::error::opt_text(r) == parsed_url(input@),
{
    match url::Url::parse(input) {
        Ok(parsed) => Some(String::from(parsed)),
        Err(_) => None,
    }
}

/// An absolute URL in its normal written form.
#[derive(Debug, Clone, PartialEq, Eq)]
pub struct WebUrl {
    pub href: String,
}

impl WebUrl {
    /// Turns the outcome of parsing `input` into a URL, or into the error
    /// that names the text that could not be parsed.
    pub fn from_parsed(input: &str, parsed: Option<String>) -> (r: Result<WebUrl, Error>)
        ensures
            match r {
                Ok(u) => parsed == Some(u.href),
                Err(e) => parsed is None && e@ == ErrorView::InvalidInput(input@),
            },
    {
        match parsed {
            Some(href) => Ok(WebUrl { href }),
            None => Err(Error::InvalidInput(input.to_owned())),
        }
    }

    /// Parses a text as an absolute URL.
    pub fn parse(input: &str) -> (r: Result<WebUrl, Error>)
        ensures
            match r {
                Ok(u) => parsed_url(input@) == Some(u.href@),
                Err(e) => parsed_url(input@) is None && e@ == ErrorView::InvalidInput(input@),
            },
    {
        WebUrl::from_parsed(input, parse_url(input))
    }

    /// The URL as text.
    pub fn as_str(&self) -> (r: &str)
        ensures
            r@ == self.href@,
    {
        self.href.as_str()
    }
}

} // verus!
