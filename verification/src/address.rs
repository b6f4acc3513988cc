//! Absolute URLs, taken apart into the plain values that the library reads.

use vstd::prelude::*;
use crate::text::text_of;

verus! {

/// The error of the `url` crate's parser.
#[verifier::external_type_specification]
#[verifier::external_body]
pub struct ExParseError(url::ParseError);

/// The parts of a URL that the rules for Gemini URLs read, as plain
/// mathematical data.
pub struct UrlPartsModel {
    pub text: Seq<char>,
    pub scheme: Seq<char>,
    pub has_authority: bool,
    pub has_host: bool,
    pub username: Seq<char>,
    pub password: Option<Seq<char>>,
}

/// The parts of `s` read as an absolute URL, as the `url` crate's parser
/// and accessors give them; none where the parser rejects `s`.
pub uninterp spec fn url_parts_of(s: Seq<char>) -> Option<UrlPartsModel>;

/// The parts of a URL that the rules for Gemini URLs read.
#[derive(Clone, Debug, PartialEq, Eq, Hash, PartialOrd, Ord)]
pub struct UrlParts {
    /// The URL in full, in the parser's serialization.
    pub text: String,
    /// The scheme, without the colon.
    pub scheme: String,
    /// `://` follows the scheme.
    pub has_authority: bool,
    /// The URL names a host.
    pub has_host: bool,
    /// The user name; empty where there is none.
    pub username: String,
    /// The password, where there is one.
    pub password: Option<String>,
}

impl View for UrlParts {
    type V = UrlPartsModel;

    open spec fn view(&self) -> UrlPartsModel {
        UrlPartsModel {
            text: self.text@,
            scheme: self.scheme@,
            has_authority: self.has_authority,
            has_host: self.has_host,
            username: self.username@,
            password: text_of(self.password),
        }
    }
}

/// Parses an absolute URL and takes it apart.
///
/// Trusted: this calls `url::Url::parse` and copies what the accessors
/// `scheme`, `has_authority`, `has_host`, `username` and `password` give,
/// and the serialization. The contract claims only that the outcome is a
/// function of the characters of `s`, under the name `url_parts_of`, and
/// that the parser's error comes back where it rejects `s`.
#[verifier::external_body]
pub(crate) fn url_parts(s: &str) -> (r: Result<UrlParts, url::ParseError>)
    ensures
        (match r {
            Ok(parts) => url_parts_of(s@) == Some(parts@),
            Err(_) => url_parts_of(s@) is None,
        }),
{
    let url = url::Url::parse(s)?;
    Ok(
        UrlParts {
            scheme: String::from(url.scheme()),
            has_authority: url.has_authority(),
            has_host: url.has_host(),
            username: String::from(url.username()),
            password: url.password().map(String::from),
            text: String::from(url),
        },
    )
}

/// The serialization of `s` read as an absolute URL; none where the
/// parser rejects `s`.
pub open spec fn url_text(s: Seq<char>) -> Option<Seq<char>> {
    match url_parts_of(s) {
        Some(parts) => Some(parts.text),
        None => None,
    }
}

} // verus!
