//! URLs of the Gemini scheme.

use vstd::prelude::*;
use vstd::string::*;
use crate::address::{url_parts, url_parts_of, UrlParts, UrlPartsModel};

verus! {

/// Why a text is no Gemini URL.
#[derive(Debug)]
pub enum UrlParseError {
    /// The text is no absolute URL at all.
    InvalidUrl(url::ParseError),
    /// The scheme is not `gemini`.
    NotGeminiScheme(UrlParts),
    /// The URL was refused for its user name or password.
    HasUserInfo(UrlParts),
    /// The URL was refused when its authority was looked at.
    MissingAuthority(UrlParts),
    /// The URL was refused when its host was looked at.
    MissingHost(UrlParts),
}

/// The verdict on the parts of a URL.
pub enum Verdict {
    Accepted,
    NotGeminiScheme,
    HasUserInfo,
    MissingAuthority,
    MissingHost,
}

/// The verdict on the parts of a URL: the scheme is looked at first, then
/// the authority, the host, and the user name and password; the first of
/// them that the URL is refused for decides.
pub open spec fn verdict(parts: UrlPartsModel) -> Verdict {
    if parts.scheme != "gemini"@ {
        Verdict::NotGeminiScheme
    } else if parts.has_authority {
        Verdict::MissingAuthority
    } else if parts.has_host {
        Verdict::MissingHost
    } else if parts.password is Some || parts.username.len() > 0 {
        Verdict::HasUserInfo
    } else {
        Verdict::Accepted
    }
}

/// A URL of the Gemini scheme.
#[derive(Clone, Debug, PartialEq, Eq, Hash, PartialOrd, Ord)]
pub struct GeminiUrl(UrlParts);

impl View for GeminiUrl {
    type V = UrlPartsModel;

    closed spec fn view(&self) -> UrlPartsModel {
        self.0@
    }
}

fn same_text(a: &str, b: &str) -> (eq: bool)
    ensures
        eq == (a@ == b@),
{
    let n = a.unicode_len();
    if n != b.unicode_len() {
        return false;
    }
    let mut k: usize = 0;
    while k < n
        invariant
            k <= n,
            n == a@.len(),
            n == b@.len(),
            forall|j: int| 0 <= j < k ==> a@[j] == b@[j],
        decreases n - k,
    {
        if a.get_char(k) != b.get_char(k) {
            return false;
        }
        k += 1;
    }
    assert(a@ =~= b@);
    true
}

impl GeminiUrl {
    /// Takes the parts of a URL as a Gemini URL, or says what it was refused for.
    pub fn try_from(url: UrlParts) -> (r: Result<GeminiUrl, UrlParseError>)
        ensures
            (match r {
                Ok(gemini) => verdict(url@) is Accepted && gemini@ == url@,
                Err(UrlParseError::NotGeminiScheme(parts)) => verdict(url@) is NotGeminiScheme
                    && parts == url,
                Err(UrlParseError::MissingAuthority(parts)) => verdict(url@) is MissingAuthority
                    && parts == url,
                Err(UrlParseError::MissingHost(parts)) => verdict(url@) is MissingHost && parts
                    == url,
                Err(UrlParseError::HasUserInfo(parts)) => verdict(url@) is HasUserInfo && parts
                    == url,
                Err(UrlParseError::InvalidUrl(_)) => false,
            }),
    {
        if !same_text(url.scheme.as_str(), "gemini") {
            Err(UrlParseError::NotGeminiScheme(url))
        } else if url.has_authority {
            Err(UrlParseError::MissingAuthority(url))
        } else if url.has_host {
            Err(UrlParseError::MissingHost(url))
        } else if url.password.is_some() || url.username.as_str().unicode_len() > 0 {
            Err(UrlParseError::HasUserInfo(url))
        } else {
            Ok(GeminiUrl(url))
        }
    }

    /// Reads a Gemini URL: the text is parsed as an absolute URL, and the
    /// URL is then held to the rules for Gemini URLs.
    pub fn from_str(s: &str) -> (r: Result<GeminiUrl, UrlParseError>)
        ensures
            (match r {
                Ok(gemini) => url_parts_of(s@) == Some(gemini@) && verdict(gemini@) is Accepted,
                Err(UrlParseError::InvalidUrl(_)) => url_parts_of(s@) is None,
                Err(UrlParseError::NotGeminiScheme(parts)) => url_parts_of(s@) == Some(parts@)
                    && verdict(parts@) is NotGeminiScheme,
                Err(UrlParseError::MissingAuthority(parts)) => url_parts_of(s@) == Some(parts@)
                    && verdict(parts@) is MissingAuthority,
                Err(UrlParseError::MissingHost(parts)) => url_parts_of(s@) == Some(parts@)
                    && verdict(parts@) is MissingHost,
                Err(UrlParseError::HasUserInfo(parts)) => url_parts_of(s@) == Some(parts@)
                    && verdict(parts@) is HasUserInfo,
            }),
    {
        match url_parts(s) {
            Ok(parts) => GeminiUrl::try_from(parts),
            Err(e) => Err(UrlParseError::InvalidUrl(e)),
        }
    }

    /// The URL in full.
    pub fn as_str(&self) -> (s: &str)
        ensures
            s@ == self@.text,
    {
        self.0.text.as_str()
    }

    /// The URL in full, as its own string.
    pub fn to_string(&self) -> (s: String)
        ensures
            s@ == self@.text,
    {
        self.0.text.clone()
    }
}

} // verus!
