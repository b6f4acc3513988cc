//! Media types, as far as a Gemini response needs them.

use vstd::prelude::*;
use vstd::string::*;
use crate::text::text_of;

verus! {

/// The parts of a media type that the library reads, as plain mathematical data.
pub struct MimeModel {
    /// The media type in full.
    pub text: Seq<char>,
    /// The type and the subtype, without parameters.
    pub essence: Seq<char>,
    /// The value of the `charset` parameter, where there is one.
    pub charset: Option<Seq<char>>,
}

/// The parts of `s` read as a media type, as the `mime` crate's parser and
/// accessors give them; none where the parser rejects `s`.
pub uninterp spec fn media_type(s: Seq<char>) -> Option<MimeModel>;

/// A media type: its text, and the parts of it that the library reads.
#[derive(Clone, Debug, PartialEq, Eq, Hash, PartialOrd, Ord)]
pub struct Mime {
    /// The media type in full, as the parser spelled it.
    pub text: String,
    /// The type and the subtype, without parameters.
    pub essence: String,
    /// The value of the `charset` parameter, where there is one.
    pub charset: Option<String>,
}

impl View for Mime {
    type V = MimeModel;

    open spec fn view(&self) -> MimeModel {
        MimeModel { text: self.text@, essence: self.essence@, charset: text_of(self.charset) }
    }
}

/// Parses a media type and takes it apart.
///
/// Trusted: this calls `str::parse::<mime::Mime>` and copies what
/// `Mime::as_ref` gives as the text, what `Mime::essence_str` gives as the
/// essence, and the value that `Mime::get_param` gives for `mime::CHARSET`.
/// The contract claims only that the outcome is a function of the
/// characters of `s`, under the name `media_type`.
#[verifier::external_body]
fn parse_media_type(s: &str) -> (r: Option<Mime>)
    ensures
        (match r {
            Some(mime) => media_type(s@) == Some(mime@),
            None => media_type(s@) is None,
        }),
{
    match s.parse::<::mime::Mime>() {
        Ok(parsed) => Some(
            Mime {
                text: String::from(parsed.as_ref()),
                essence: String::from(parsed.essence_str()),
                charset: parsed.get_param(::mime::CHARSET).map(|name| String::from(name.as_str())),
            },
        ),
        Err(_) => None,
    }
}

/// The lower-case form of an ASCII capital; any other character is itself.
pub open spec fn ascii_lower(c: char) -> char {
    if 'A' <= c <= 'Z' {
        ((c as u32) + 32) as char
    } else {
        c
    }
}

/// Two texts are equal up to the case of their ASCII letters.
pub open spec fn eq_ignoring_ascii_case(a: Seq<char>, b: Seq<char>) -> bool {
    a.len() == b.len() && forall|k: int|
        0 <= k < a.len() ==> ascii_lower(#[trigger] a[k]) == ascii_lower(b[k])
}

/// The characters of the essence of Gemini's own document format.
pub open spec fn gemtext_essence() -> Seq<char> {
    "text/gemini"@
}

/// The characters of the charset that a response has where it names none.
pub open spec fn default_charset() -> Seq<char> {
    "utf-8"@
}

fn to_ascii_lower(c: char) -> (l: char)
    ensures
        l == ascii_lower(c),
{
    if 'A' <= c && c <= 'Z' {
        ((c as u8) + 32) as char
    } else {
        c
    }
}

/// Compares two texts up to the case of their ASCII letters.
pub fn eq_ignore_ascii_case(a: &str, b: &str) -> (eq: bool)
    ensures
        eq == eq_ignoring_ascii_case(a@, b@),
{
    let n = a.unicode_len();
    if n != b.unicode_len() {
        return false;
    }
    let mut k: usize = 0;
    while k < n
        invariant
            k <= n,
            n == a@.len(),
            n == b@.len(),
            forall|j: int| 0 <= j < k ==> ascii_lower(#[trigger] a@[j]) == ascii_lower(b@[j]),
        decreases n - k,
    {
        if to_ascii_lower(a.get_char(k)) != to_ascii_lower(b.get_char(k)) {
            return false;
        }
        k += 1;
    }
    true
}

impl Mime {
    /// Parses a media type; none where the text is no media type.
    pub fn from_str(s: &str) -> (r: Option<Mime>)
        ensures
            (match r {
                Some(mime) => media_type(s@) == Some(mime@),
                None => media_type(s@) is None,
            }),
    {
        parse_media_type(s)
    }

    /// The text of the media type.
    pub fn as_str(&self) -> (s: &str)
        ensures
            s@ == self@.text,
    {
        self.text.as_str()
    }

    /// The text of the media type, as its own string.
    pub fn to_string(&self) -> (s: String)
        ensures
            s@ == self@.text,
    {
        self.text.clone()
    }

    /// The type and the subtype, without parameters.
    pub fn essence_str(&self) -> (s: &str)
        ensures
            s@ == self@.essence,
    {
        self.essence.as_str()
    }

    /// The value of the `charset` parameter, where there is one.
    pub fn charset(&self) -> (c: Option<&str>)
        ensures
            (match c {
                Some(value) => self@.charset == Some(value@),
                None => self@.charset is None,
            }),
    {
        match &self.charset {
            Some(value) => Some(value.as_str()),
            None => None,
        }
    }
}

/// Whether the media type is Gemini's own document format: its essence is
/// `text/gemini`, in any case of letters.
pub fn mime_is_gemtext(m: &Mime) -> (b: bool)
    ensures
        b == eq_ignoring_ascii_case(m@.essence, gemtext_essence()),
{
    eq_ignore_ascii_case(m.essence_str(), "text/gemini")
}

/// The charset of the media type: its `charset` parameter, or `utf-8`
/// where it has none.
pub fn mime_charset(m: &Mime) -> (c: String)
    ensures
        c@ == (match m@.charset {
            Some(value) => value,
            None => default_charset(),
        }),
{
    match m.charset() {
        Some(value) => String::from_str(value),
        None => String::from_str("utf-8"),
    }
}

} // verus!
