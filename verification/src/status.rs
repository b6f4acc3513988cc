//! Gemini response status lines: the two-digit code and what follows it.

use vstd::prelude::*;
use vstd::string::*;
use crate::decimal::{
    decimal, decimal_string, digit_of_char, digit_value, is_digit, parse_u16, u16_of,
};
use crate::media::{media_type, Mime, MimeModel};
use crate::text::{chars_of, string_of};
use crate::uri::URI;

verus! {

/// Why a status line, or a part of one, was rejected.
#[derive(Debug, PartialEq, Eq)]
pub enum Error {
    /// Expected a status code, found something that is no two-digit number.
    InvalidCode(String),
    /// Expected a valid status code, found a number that is none.
    UnknownCode(u8),
    /// Expected a valid status code, found one for a different status type.
    WrongCodeForStatus(u8),
    /// Not a valid status string.
    InvalidStatus(String),
    /// Not a valid meta string for this status code.
    InvalidMeta(String),
}

/// An error, as plain mathematical data.
pub enum ErrorModel {
    InvalidCode(Seq<char>),
    UnknownCode(u8),
    WrongCodeForStatus(u8),
    InvalidStatus(Seq<char>),
    InvalidMeta(Seq<char>),
}

impl View for Error {
    type V = ErrorModel;

    open spec fn view(&self) -> ErrorModel {
        match self {
            Error::InvalidCode(s) => ErrorModel::InvalidCode(s@),
            Error::UnknownCode(c) => ErrorModel::UnknownCode(*c),
            Error::WrongCodeForStatus(c) => ErrorModel::WrongCodeForStatus(*c),
            Error::InvalidStatus(s) => ErrorModel::InvalidStatus(s@),
            Error::InvalidMeta(s) => ErrorModel::InvalidMeta(s@),
        }
    }
}

/// The number that two characters stand for as a status code: two digits,
/// or a plus sign and one digit. None for any other text.
pub open spec fn two_digit_value(s: Seq<char>) -> Option<u8> {
    if s.len() == 2 && is_digit(s[0]) && is_digit(s[1]) {
        Some((digit_value(s[0]) * 10 + digit_value(s[1])) as u8)
    } else if s.len() == 2 && s[0] == '+' && is_digit(s[1]) {
        Some(digit_value(s[1]) as u8)
    } else {
        None
    }
}

/// The status code that a text stands for, or why it stands for none.
pub open spec fn code_of(s: Seq<char>) -> Result<u8, ErrorModel> {
    match two_digit_value(s) {
        Some(value) => if is_known(value) {
            Ok(value)
        } else {
            Err(ErrorModel::UnknownCode(value))
        },
        None => Err(ErrorModel::InvalidCode(s)),
    }
}

/// The number is a status code that the protocol defines.
pub open spec fn is_known(code: u8) -> bool {
    ||| code == 10 || code == 11
    ||| code == 20
    ||| code == 30 || code == 31
    ||| 40 <= code <= 44
    ||| 50 <= code <= 53 || code == 59
    ||| 60 <= code <= 62
}

/// A status code that the protocol defines.
#[derive(Copy, Clone, Debug, PartialEq, Eq, Hash, PartialOrd, Ord)]
pub struct Code(u8);

impl Code {
    pub const INPUT: u8 = 10;

    pub const SENSITIVE_INPUT: u8 = 11;

    pub const SUCCESS: u8 = 20;

    pub const TEMPORARY_REDIRECT: u8 = 30;

    pub const PERMANENT_REDIRECT: u8 = 31;

    pub const TEMPORARY_FAILURE: u8 = 40;

    pub const SERVER_UNAVAILABLE: u8 = 41;

    pub const CGI_ERROR: u8 = 42;

    pub const PROXY_ERROR: u8 = 43;

    pub const SLOW_DOWN: u8 = 44;

    pub const PERMANENT_FAILURE: u8 = 50;

    pub const NOT_FOUND: u8 = 51;

    pub const GONE: u8 = 52;

    pub const PROXY_REQUEST_REFUSED: u8 = 53;

    pub const BAD_REQUEST: u8 = 59;

    pub const CLIENT_CERTIFICATE_REQUIRED: u8 = 60;

    pub const CERTIFICATE_NOT_AUTHORISED: u8 = 61;

    pub const CERTIFICATE_NOT_VALID: u8 = 62;

    /// Every code that the protocol defines, in ascending order.
    pub const ALL_CODES: [u8; 18] = [
        10,
        11,
        20,
        30,
        31,
        40,
        41,
        42,
        43,
        44,
        50,
        51,
        52,
        53,
        59,
        60,
        61,
        62,
    ];

    #[verifier::type_invariant]
    spec fn inv(self) -> bool {
        is_known(self.0)
    }

    /// The number of the code.
    pub closed spec fn raw(self) -> u8 {
        self.0
    }

    /// The number of the code.
    pub fn value(&self) -> (v: u8)
        ensures
            v == self.raw(),
            is_known(v),
    {
        proof {
            use_type_invariant(self);
        }
        self.0
    }

    /// The code with the given number, where the protocol defines one.
    pub fn try_from(value: u8) -> (r: Result<Code, Error>)
        ensures
            (match r {
                Ok(code) => is_known(value) && code.raw() == value,
                Err(e) => !is_known(value) && e@ == ErrorModel::UnknownCode(value),
            }),
    {
        if Code::is_valid(value) {
            Ok(Code(value))
        } else {
            Err(Error::UnknownCode(value))
        }
    }

    /// Reads a status code: exactly two characters that make a number, and
    /// the number one that the protocol defines.
    pub fn from_str(s: &str) -> (r: Result<Code, Error>)
        ensures
            (match r {
                Ok(code) => code_of(s@) == Ok::<u8, ErrorModel>(code.raw()),
                Err(e) => code_of(s@) == Err::<u8, ErrorModel>(e@),
            }),
    {
        if s.unicode_len() != 2 {
            return Err(Error::InvalidCode(String::from_str(s)));
        }
        let tens = match digit_of_char(s.get_char(0)) {
            Some(d) => d,
            None => {
                if s.get_char(0) == '+' {
                    0
                } else {
                    return Err(Error::InvalidCode(String::from_str(s)));
                }
            },
        };
        match digit_of_char(s.get_char(1)) {
            Some(units) => Code::try_from(tens * 10 + units),
            None => Err(Error::InvalidCode(String::from_str(s))),
        }
    }

    /// The code as a two-digit numeral.
    pub fn to_string(&self) -> (s: String)
        ensures
            s@ == decimal(self.raw() as nat),
    {
        decimal_string(self.0 as u16)
    }

    /// Every code that the protocol defines, in ascending order.
    pub fn all_codes() -> (codes: Vec<Code>)
        ensures
            codes.len() == 18,
            forall|k: int| 0 <= k < 18 ==> (#[trigger] codes[k]).raw() == Code::ALL_CODES[k],
            forall|j: int, k: int| 0 <= j < k < 18 ==> codes[j].raw() < codes[k].raw(),
    {
        let mut codes: Vec<Code> = Vec::new();
        let mut k: usize = 0;
        while k < 18
            invariant
                k <= 18,
                codes.len() == k,
                forall|j: int| 0 <= j < k ==> (#[trigger] codes[j]).raw() == Code::ALL_CODES[j],
            decreases 18 - k,
        {
            codes.push(Code(Code::ALL_CODES[k]));
            k += 1;
        }
        codes
    }

    /// Looks the number up among the codes that the protocol defines.
    pub fn is_valid(code: u8) -> (b: bool)
        ensures
            b == is_known(code),
    {
        let mut lo: usize = 0;
        let mut hi: usize = 18;
        while lo < hi
            invariant
                lo <= hi <= 18,
                forall|k: int| 0 <= k < lo ==> Code::ALL_CODES[k] < code,
                forall|k: int| hi <= k < 18 ==> Code::ALL_CODES[k] > code,
            decreases hi - lo,
        {
            let mid = lo + (hi - lo) / 2;
            let found = Code::ALL_CODES[mid];
            if found == code {
                return true;
            } else if found < code {
                lo = mid + 1;
            } else {
                hi = mid;
            }
        }
        false
    }
}

/// What follows the code in a status line.
pub enum Meta {
    /// A text: a prompt, a message or a redirect target.
    Text(Seq<char>),
    /// A number of seconds to wait.
    Seconds(u16),
    /// A media type, with the parts that the parser took it apart into.
    Media(MimeModel),
}

/// A status, as plain mathematical data: its code and what follows it.
pub struct StatusModel {
    pub code: u8,
    pub meta: Meta,
}

/// The line without a carriage return and line feed at its end.
pub open spec fn strip_crlf(s: Seq<char>) -> Seq<char> {
    if s.len() >= 2 && s[s.len() - 2] == '\r' && s[s.len() - 1] == '\n' {
        s.subrange(0, s.len() - 2)
    } else {
        s
    }
}

/// The position of the first space at or after `i`; the length where there is none.
pub open spec fn first_space(s: Seq<char>, i: int) -> int
    decreases s.len() - i,
{
    if i < 0 || i >= s.len() || s[i] == ' ' {
        i
    } else {
        first_space(s, i + 1)
    }
}

/// The code and the meta text of a status line, which the first space
/// parts; or why the line has none.
pub open spec fn parts_of(s: Seq<char>) -> Result<(u8, Seq<char>), ErrorModel> {
    let line = strip_crlf(s);
    let space = first_space(line, 0);
    if space >= line.len() {
        Err(ErrorModel::InvalidStatus(line))
    } else {
        match code_of(line.subrange(0, space)) {
            Ok(code) => Ok((code, line.subrange(space + 1, line.len() as int))),
            Err(e) => Err(e),
        }
    }
}

/// What the meta text means under the given code: seconds for a request to
/// slow down, a media type for a success, and the text itself otherwise.
pub open spec fn meta_of(code: u8, meta: Seq<char>) -> Result<Meta, ErrorModel> {
    if code == Code::SLOW_DOWN {
        match u16_of(meta) {
            Some(seconds) => Ok(Meta::Seconds(seconds)),
            None => Err(ErrorModel::InvalidMeta(meta)),
        }
    } else if code == Code::SUCCESS {
        match media_type(meta) {
            Some(mime) => Ok(Meta::Media(mime)),
            None => Err(ErrorModel::InvalidMeta(meta)),
        }
    } else {
        Ok(Meta::Text(meta))
    }
}

/// The status that a line stands for, read as a status of the family whose
/// codes begin with the digit `family`; or why it stands for none.
pub open spec fn status_of(s: Seq<char>, family: int) -> Result<StatusModel, ErrorModel> {
    match parts_of(s) {
        Ok((code, meta)) => if code / 10 == family {
            match meta_of(code, meta) {
                Ok(m) => Ok(StatusModel { code, meta: m }),
                Err(e) => Err(e),
            }
        } else {
            Err(ErrorModel::WrongCodeForStatus(code))
        },
        Err(e) => Err(e),
    }
}

/// The status that a line stands for, whatever its family.
pub open spec fn status_line_of(s: Seq<char>) -> Result<StatusModel, ErrorModel> {
    let space = first_space(s, 0);
    if space >= s.len() {
        Err(ErrorModel::InvalidStatus(s))
    } else {
        match code_of(s.subrange(0, space)) {
            Ok(code) => status_of(s, code as int / 10),
            Err(e) => Err(e),
        }
    }
}

/// A parse result, as plain mathematical data.
pub open spec fn outcome<T: View<V = StatusModel>>(r: Result<T, Error>) -> Result<
    StatusModel,
    ErrorModel,
> {
    match r {
        Ok(status) => Ok(status@),
        Err(e) => Err(e@),
    }
}

/// The text of a meta value.
pub open spec fn meta_text(meta: Meta) -> Seq<char> {
    match meta {
        Meta::Text(text) => text,
        Meta::Seconds(seconds) => decimal(seconds as nat),
        Meta::Media(mime) => mime.text,
    }
}

/// A status written out: the code, a space, and the meta text.
pub open spec fn rendered(status: StatusModel) -> Seq<char> {
    decimal(status.code as nat) + seq![' '] + meta_text(status.meta)
}

/// The first space of a status line, if it has one.
fn find_space(chars: &[char], end: usize) -> (space: usize)
    requires
        end <= chars@.len(),
    ensures
        space == first_space(chars@.subrange(0, end as int), 0),
        space <= end,
{
    let ghost line = chars@.subrange(0, end as int);
    let mut i: usize = 0;
    while i < end && chars[i] != ' '
        invariant
            i <= end <= chars@.len(),
            line == chars@.subrange(0, end as int),
            first_space(line, i as int) == first_space(line, 0),
        decreases end - i,
    {
        i += 1;
    }
    i
}

/// Parts a status line into its code and its meta text.
pub fn split_status(s: &str) -> (r: Result<(Code, String), Error>)
    ensures
        (match r {
            Ok(parts) => parts_of(s@) == Ok::<(u8, Seq<char>), ErrorModel>(
                (parts.0.raw(), parts.1@),
            ),
            Err(e) => parts_of(s@) == Err::<(u8, Seq<char>), ErrorModel>(e@),
        }),
{
    let chars = chars_of(s);
    let len = chars.len();
    let end: usize = if len >= 2 && chars[len - 2] == '\r' && chars[len - 1] == '\n' {
        len - 2
    } else {
        len
    };
    assert(chars@.subrange(0, end as int) =~= strip_crlf(s@));
    let space = find_space(chars.as_slice(), end);
    if space >= end {
        return Err(Error::InvalidStatus(string_of(chars.as_slice(), 0, end)));
    }
    let code_text = string_of(chars.as_slice(), 0, space);
    assert(code_text@ =~= strip_crlf(s@).subrange(0, space as int));
    match Code::from_str(code_text.as_str()) {
        Ok(code) => {
            let meta = string_of(chars.as_slice(), space + 1, end);
            assert(meta@ =~= strip_crlf(s@).subrange(space + 1, end as int));
            Ok((code, meta))
        },
        Err(e) => Err(e),
    }
}

/// Writes a status out: the code, a space, and the meta text.
fn render(code: Code, meta: &str) -> (s: String)
    ensures
        s@ == decimal(code.raw() as nat) + seq![' '] + meta@,
{
    proof {
        reveal_strlit(" ");
        assert(" "@ =~= seq![' ']);
    }
    let mut s = code.to_string();
    s.append(" ");
    s.append(meta);
    s
}

/// A request for input from the user.
#[derive(Clone, Debug, PartialEq, Eq, Hash, PartialOrd, Ord)]
pub enum Input {
    /// The input may be shown as it is typed.
    Normal { prompt: String },
    /// The input is a secret and should not be shown.
    Sensitive { prompt: String },
}

impl View for Input {
    type V = StatusModel;

    open spec fn view(&self) -> StatusModel {
        match self {
            Input::Normal { prompt } => StatusModel {
                code: Code::INPUT,
                meta: Meta::Text(prompt@),
            },
            Input::Sensitive { prompt } => StatusModel {
                code: Code::SENSITIVE_INPUT,
                meta: Meta::Text(prompt@),
            },
        }
    }
}

impl Input {
    /// Reads a status line of this family.
    pub fn from_str(s: &str) -> (r: Result<Input, Error>)
        ensures
            outcome(r) == status_of(s@, 1),
    {
        let (code, prompt) = match split_status(s) {
            Ok(parts) => parts,
            Err(e) => {
                return Err(e);
            },
        };
        let value = code.value();
        if value == Code::INPUT {
            Ok(Input::Normal { prompt })
        } else if value == Code::SENSITIVE_INPUT {
            Ok(Input::Sensitive { prompt })
        } else {
            Err(Error::WrongCodeForStatus(value))
        }
    }

    /// The status code.
    pub fn code(&self) -> (c: Code)
        ensures
            c.raw() == self@.code,
    {
        match self {
            Input::Normal { .. } => Code(Code::INPUT),
            Input::Sensitive { .. } => Code(Code::SENSITIVE_INPUT),
        }
    }

    /// The prompt to show to the user.
    pub fn prompt(&self) -> (text: &str)
        ensures
            Meta::Text(text@) == self@.meta,
    {
        match self {
            Input::Normal { prompt } => prompt.as_str(),
            Input::Sensitive { prompt } => prompt.as_str(),
        }
    }

    /// The status line without its terminator: the code, a space, and the prompt.
    pub fn to_string(&self) -> (s: String)
        ensures
            s@ == rendered(self@),
    {
        render(self.code(), self.prompt())
    }

    /// The input is a secret.
    pub fn is_sensitive(&self) -> (b: bool)
        ensures
            b == (self is Sensitive),
            b == (self@.code == Code::SENSITIVE_INPUT),
    {
        match self {
            Input::Sensitive { .. } => true,
            Input::Normal { .. } => false,
        }
    }
}

/// A success: the body that follows has the given media type.
#[derive(Clone, Debug, PartialEq, Eq, Hash, PartialOrd, Ord)]
pub enum Success {
    /// The only success there is.
    Normal { mime: Mime },
}

impl View for Success {
    type V = StatusModel;

    open spec fn view(&self) -> StatusModel {
        match self {
            Success::Normal { mime } => StatusModel {
                code: Code::SUCCESS,
                meta: Meta::Media(mime@),
            },
        }
    }
}

impl Success {
    /// The success that a code and a meta text stand for, given what the
    /// media type parser made of the meta text.
    pub fn from_parts(code: Code, meta: String, mime: Option<Mime>) -> (r: Result<Success, Error>)
        ensures
            (match r {
                Ok(success) => code.raw() == Code::SUCCESS && mime == Some(
                    success->Normal_mime,
                ),
                Err(e) => if code.raw() == Code::SUCCESS {
                    mime is None && e@ == ErrorModel::InvalidMeta(meta@)
                } else {
                    e@ == ErrorModel::WrongCodeForStatus(code.raw())
                },
            }),
    {
        let value = code.value();
        if value == Code::SUCCESS {
            match mime {
                Some(mime) => Ok(Success::Normal { mime }),
                None => Err(Error::InvalidMeta(meta)),
            }
        } else {
            Err(Error::WrongCodeForStatus(value))
        }
    }

    /// Reads a status line of this family.
    pub fn from_str(s: &str) -> (r: Result<Success, Error>)
        ensures
            outcome(r) == status_of(s@, 2),
    {
        let (code, meta) = match split_status(s) {
            Ok(parts) => parts,
            Err(e) => {
                return Err(e);
            },
        };
        let mime = Mime::from_str(meta.as_str());
        Success::from_parts(code, meta, mime)
    }

    /// The status code.
    pub fn code(&self) -> (c: Code)
        ensures
            c.raw() == self@.code,
    {
        Code(Code::SUCCESS)
    }

    /// The media type of the body.
    pub fn mime(&self) -> (mime: &Mime)
        ensures
            Meta::Media(mime@) == self@.meta,
            *self == (Success::Normal { mime: *mime }),
    {
        match self {
            Success::Normal { mime } => mime,
        }
    }

    /// The status line without its terminator: the code, a space, and the media type.
    pub fn to_string(&self) -> (s: String)
        ensures
            s@ == rendered(self@),
    {
        render(self.code(), self.mime().as_str())
    }
}

/// A redirect to another resource.
#[derive(Clone, Debug, PartialEq, Eq, Hash, PartialOrd, Ord)]
pub enum Redirect {
    /// The redirect holds for this request only.
    Temporary { target: URI },
    /// The redirect holds from now on.
    Permanent { target: URI },
}

impl View for Redirect {
    type V = StatusModel;

    open spec fn view(&self) -> StatusModel {
        match self {
            Redirect::Temporary { target } => StatusModel {
                code: Code::TEMPORARY_REDIRECT,
                meta: Meta::Text(target@),
            },
            Redirect::Permanent { target } => StatusModel {
                code: Code::PERMANENT_REDIRECT,
                meta: Meta::Text(target@),
            },
        }
    }
}

impl Redirect {
    /// Reads a status line of this family.
    pub fn from_str(s: &str) -> (r: Result<Redirect, Error>)
        ensures
            outcome(r) == status_of(s@, 3),
    {
        let (code, meta) = match split_status(s) {
            Ok(parts) => parts,
            Err(e) => {
                return Err(e);
            },
        };
        let value = code.value();
        if value == Code::TEMPORARY_REDIRECT {
            Ok(Redirect::Temporary { target: URI::from_str(meta.as_str()) })
        } else if value == Code::PERMANENT_REDIRECT {
            Ok(Redirect::Permanent { target: URI::from_str(meta.as_str()) })
        } else {
            Err(Error::WrongCodeForStatus(value))
        }
    }

    /// The status code.
    pub fn code(&self) -> (c: Code)
        ensures
            c.raw() == self@.code,
    {
        match self {
            Redirect::Temporary { .. } => Code(Code::TEMPORARY_REDIRECT),
            Redirect::Permanent { .. } => Code(Code::PERMANENT_REDIRECT),
        }
    }

    /// Where the redirect leads.
    pub fn target(&self) -> (target: &URI)
        ensures
            Meta::Text(target@) == self@.meta,
            (match self {
                Redirect::Temporary { target: t } => t == target,
                Redirect::Permanent { target: t } => t == target,
            }),
    {
        match self {
            Redirect::Temporary { target } => target,
            Redirect::Permanent { target } => target,
        }
    }

    /// The redirect holds for this request only.
    pub fn is_temporary(&self) -> (b: bool)
        ensures
            b == (self is Temporary),
            b == (self@.code == Code::TEMPORARY_REDIRECT),
    {
        match self {
            Redirect::Temporary { .. } => true,
            Redirect::Permanent { .. } => false,
        }
    }

    /// The redirect holds from now on.
    pub fn is_permanent(&self) -> (b: bool)
        ensures
            b == (self is Permanent),
            b == (self@.code == Code::PERMANENT_REDIRECT),
    {
        match self {
            Redirect::Permanent { .. } => true,
            Redirect::Temporary { .. } => false,
        }
    }

    /// The status line without its terminator: the code, a space, and the target.
    pub fn to_string(&self) -> (s: String)
        ensures
            s@ == rendered(self@),
    {
        render(self.code(), self.target().as_str())
    }
}

/// A failure that may go away if the request is repeated.
#[derive(Clone, Debug, PartialEq, Eq, Hash, PartialOrd, Ord)]
pub enum TemporaryFailure {
    /// No reason is given.
    Generic { message: String },
    /// The server is unavailable.
    ServerUnavailable { message: String },
    /// A CGI process failed.
    CgiError { message: String },
    /// A proxied request failed.
    ProxyError { message: String },
    /// The client asks too often and is to wait this many seconds.
    SlowDown { wait_secs: u16 },
}

impl View for TemporaryFailure {
    type V = StatusModel;

    open spec fn view(&self) -> StatusModel {
        match self {
            TemporaryFailure::Generic { message } => StatusModel {
                code: Code::TEMPORARY_FAILURE,
                meta: Meta::Text(message@),
            },
            TemporaryFailure::ServerUnavailable { message } => StatusModel {
                code: Code::SERVER_UNAVAILABLE,
                meta: Meta::Text(message@),
            },
            TemporaryFailure::CgiError { message } => StatusModel {
                code: Code::CGI_ERROR,
                meta: Meta::Text(message@),
            },
            TemporaryFailure::ProxyError { message } => StatusModel {
                code: Code::PROXY_ERROR,
                meta: Meta::Text(message@),
            },
            TemporaryFailure::SlowDown { wait_secs } => StatusModel {
                code: Code::SLOW_DOWN,
                meta: Meta::Seconds(*wait_secs),
            },
        }
    }
}

impl TemporaryFailure {
    /// Reads a status line of this family.
    pub fn from_str(s: &str) -> (r: Result<TemporaryFailure, Error>)
        ensures
            outcome(r) == status_of(s@, 4),
    {
        let (code, message) = match split_status(s) {
            Ok(parts) => parts,
            Err(e) => {
                return Err(e);
            },
        };
        let value = code.value();
        if value == Code::TEMPORARY_FAILURE {
            Ok(TemporaryFailure::Generic { message })
        } else if value == Code::SERVER_UNAVAILABLE {
            Ok(TemporaryFailure::ServerUnavailable { message })
        } else if value == Code::CGI_ERROR {
            Ok(TemporaryFailure::CgiError { message })
        } else if value == Code::PROXY_ERROR {
            Ok(TemporaryFailure::ProxyError { message })
        } else if value == Code::SLOW_DOWN {
            match parse_u16(message.as_str()) {
                Some(wait_secs) => Ok(TemporaryFailure::SlowDown { wait_secs }),
                None => Err(Error::InvalidMeta(message)),
            }
        } else {
            Err(Error::WrongCodeForStatus(value))
        }
    }

    /// The status code.
    pub fn code(&self) -> (c: Code)
        ensures
            c.raw() == self@.code,
    {
        match self {
            TemporaryFailure::Generic { .. } => Code(Code::TEMPORARY_FAILURE),
            TemporaryFailure::ServerUnavailable { .. } => Code(Code::SERVER_UNAVAILABLE),
            TemporaryFailure::CgiError { .. } => Code(Code::CGI_ERROR),
            TemporaryFailure::ProxyError { .. } => Code(Code::PROXY_ERROR),
            TemporaryFailure::SlowDown { .. } => Code(Code::SLOW_DOWN),
        }
    }

    /// The status line without its terminator: the code, a space, and the
    /// message or the number of seconds.
    pub fn to_string(&self) -> (s: String)
        ensures
            s@ == rendered(self@),
    {
        match self {
            TemporaryFailure::Generic { message } => render(self.code(), message.as_str()),
            TemporaryFailure::ServerUnavailable { message } => render(
                self.code(),
                message.as_str(),
            ),
            TemporaryFailure::CgiError { message } => render(self.code(), message.as_str()),
            TemporaryFailure::ProxyError { message } => render(self.code(), message.as_str()),
            TemporaryFailure::SlowDown { wait_secs } => render(
                self.code(),
                decimal_string(*wait_secs).as_str(),
            ),
        }
    }
}

/// A failure that will not go away if the request is repeated.
#[derive(Clone, Debug, PartialEq, Eq, Hash, PartialOrd, Ord)]
pub enum PermanentFailure {
    /// No reason is given.
    Generic { message: String },
    /// The resource does not exist.
    NotFound { message: String },
    /// The resource is gone for good.
    Gone { message: String },
    /// The server does not proxy this request.
    ProxyRequestRefused { message: String },
    /// The request was malformed.
    BadRequest { message: String },
}

impl View for PermanentFailure {
    type V = StatusModel;

    open spec fn view(&self) -> StatusModel {
        match self {
            PermanentFailure::Generic { message } => StatusModel {
                code: Code::PERMANENT_FAILURE,
                meta: Meta::Text(message@),
            },
            PermanentFailure::NotFound { message } => StatusModel {
                code: Code::NOT_FOUND,
                meta: Meta::Text(message@),
            },
            PermanentFailure::Gone { message } => StatusModel {
                code: Code::GONE,
                meta: Meta::Text(message@),
            },
            PermanentFailure::ProxyRequestRefused { message } => StatusModel {
                code: Code::PROXY_REQUEST_REFUSED,
                meta: Meta::Text(message@),
            },
            PermanentFailure::BadRequest { message } => StatusModel {
                code: Code::BAD_REQUEST,
                meta: Meta::Text(message@),
            },
        }
    }
}

impl PermanentFailure {
    /// Reads a status line of this family.
    pub fn from_str(s: &str) -> (r: Result<PermanentFailure, Error>)
        ensures
            outcome(r) == status_of(s@, 5),
    {
        let (code, message) = match split_status(s) {
            Ok(parts) => parts,
            Err(e) => {
                return Err(e);
            },
        };
        let value = code.value();
        if value == Code::PERMANENT_FAILURE {
            Ok(PermanentFailure::Generic { message })
        } else if value == Code::NOT_FOUND {
            Ok(PermanentFailure::NotFound { message })
        } else if value == Code::GONE {
            Ok(PermanentFailure::Gone { message })
        } else if value == Code::PROXY_REQUEST_REFUSED {
            Ok(PermanentFailure::ProxyRequestRefused { message })
        } else if value == Code::BAD_REQUEST {
            Ok(PermanentFailure::BadRequest { message })
        } else {
            Err(Error::WrongCodeForStatus(value))
        }
    }

    /// The status code.
    pub fn code(&self) -> (c: Code)
        ensures
            c.raw() == self@.code,
    {
        match self {
            PermanentFailure::Generic { .. } => Code(Code::PERMANENT_FAILURE),
            PermanentFailure::NotFound { .. } => Code(Code::NOT_FOUND),
            PermanentFailure::Gone { .. } => Code(Code::GONE),
            PermanentFailure::ProxyRequestRefused { .. } => Code(Code::PROXY_REQUEST_REFUSED),
            PermanentFailure::BadRequest { .. } => Code(Code::BAD_REQUEST),
        }
    }

    /// The message for the user.
    pub fn message(&self) -> (text: &str)
        ensures
            Meta::Text(text@) == self@.meta,
    {
        match self {
            PermanentFailure::Generic { message } => message.as_str(),
            PermanentFailure::NotFound { message } => message.as_str(),
            PermanentFailure::Gone { message } => message.as_str(),
            PermanentFailure::ProxyRequestRefused { message } => message.as_str(),
            PermanentFailure::BadRequest { message } => message.as_str(),
        }
    }

    /// The status line without its terminator: the code, a space, and the message.
    pub fn to_string(&self) -> (s: String)
        ensures
            s@ == rendered(self@),
    {
        render(self.code(), self.message())
    }
}

/// A request for a client certificate.
#[derive(Clone, Debug, PartialEq, Eq, Hash, PartialOrd, Ord)]
pub enum ClientCertificateRequired {
    /// A certificate is needed.
    Required { message: String },
    /// The certificate is not authorised for the resource.
    NotAuthorised { message: String },
    /// The certificate is not valid.
    NotValid { message: String },
}

impl View for ClientCertificateRequired {
    type V = StatusModel;

    open spec fn view(&self) -> StatusModel {
        match self {
            ClientCertificateRequired::Required { message } => StatusModel {
                code: Code::CLIENT_CERTIFICATE_REQUIRED,
                meta: Meta::Text(message@),
            },
            ClientCertificateRequired::NotAuthorised { message } => StatusModel {
                code: Code::CERTIFICATE_NOT_AUTHORISED,
                meta: Meta::Text(message@),
            },
            ClientCertificateRequired::NotValid { message } => StatusModel {
                code: Code::CERTIFICATE_NOT_VALID,
                meta: Meta::Text(message@),
            },
        }
    }
}

impl ClientCertificateRequired {
    /// Reads a status line of this family.
    pub fn from_str(s: &str) -> (r: Result<ClientCertificateRequired, Error>)
        ensures
            outcome(r) == status_of(s@, 6),
    {
        let (code, message) = match split_status(s) {
            Ok(parts) => parts,
            Err(e) => {
                return Err(e);
            },
        };
        let value = code.value();
        if value == Code::CLIENT_CERTIFICATE_REQUIRED {
            Ok(ClientCertificateRequired::Required { message })
        } else if value == Code::CERTIFICATE_NOT_AUTHORISED {
            Ok(ClientCertificateRequired::NotAuthorised { message })
        } else if value == Code::CERTIFICATE_NOT_VALID {
            Ok(ClientCertificateRequired::NotValid { message })
        } else {
            Err(Error::WrongCodeForStatus(value))
        }
    }

    /// The status code.
    pub fn code(&self) -> (c: Code)
        ensures
            c.raw() == self@.code,
    {
        match self {
            ClientCertificateRequired::Required { .. } => Code(Code::CLIENT_CERTIFICATE_REQUIRED),
            ClientCertificateRequired::NotAuthorised { .. } => Code(Code::CERTIFICATE_NOT_AUTHORISED),
            ClientCertificateRequired::NotValid { .. } => Code(Code::CERTIFICATE_NOT_VALID),
        }
    }

    /// The message for the user.
    pub fn message(&self) -> (text: &str)
        ensures
            Meta::Text(text@) == self@.meta,
    {
        match self {
            ClientCertificateRequired::Required { message } => message.as_str(),
            ClientCertificateRequired::NotAuthorised { message } => message.as_str(),
            ClientCertificateRequired::NotValid { message } => message.as_str(),
        }
    }

    /// The status line without its terminator: the code, a space, and the message.
    pub fn to_string(&self) -> (s: String)
        ensures
            s@ == rendered(self@),
    {
        render(self.code(), self.message())
    }
}

/// A status of any family.
#[derive(Clone, Debug, PartialEq, Eq, Hash, PartialOrd, Ord)]
pub enum Status {
    Input(Input),
    Success(Success),
    Redirect(Redirect),
    TemporaryFailure(TemporaryFailure),
    PermanentFailure(PermanentFailure),
    ClientCertificateRequired(ClientCertificateRequired),
}

impl View for Status {
    type V = StatusModel;

    open spec fn view(&self) -> StatusModel {
        match self {
            Status::Input(inner) => inner@,
            Status::Success(inner) => inner@,
            Status::Redirect(inner) => inner@,
            Status::TemporaryFailure(inner) => inner@,
            Status::PermanentFailure(inner) => inner@,
            Status::ClientCertificateRequired(inner) => inner@,
        }
    }
}

/// A status line written out in full: the status and the line terminator.
pub open spec fn rendered_line(status: StatusModel) -> Seq<char> {
    rendered(status) + seq!['\r', '\n']
}

impl Status {
    /// Reads a status line of any family: the first digit of the code says
    /// which family reads the line.
    pub fn from_str(s: &str) -> (r: Result<Status, Error>)
        ensures
            outcome(r) == status_line_of(s@),
    {
        let chars = chars_of(s);
        assert(chars@.subrange(0, chars@.len() as int) =~= s@);
        let space = find_space(chars.as_slice(), chars.len());
        if space >= chars.len() {
            return Err(Error::InvalidStatus(String::from_str(s)));
        }
        let code_text = string_of(chars.as_slice(), 0, space);
        let code = match Code::from_str(code_text.as_str()) {
            Ok(code) => code,
            Err(e) => {
                return Err(e);
            },
        };
        let family = code.value() / 10;
        if family == 1 {
            match Input::from_str(s) {
                Ok(inner) => Ok(Status::Input(inner)),
                Err(e) => Err(e),
            }
        } else if family == 2 {
            match Success::from_str(s) {
                Ok(inner) => Ok(Status::Success(inner)),
                Err(e) => Err(e),
            }
        } else if family == 3 {
            match Redirect::from_str(s) {
                Ok(inner) => Ok(Status::Redirect(inner)),
                Err(e) => Err(e),
            }
        } else if family == 4 {
            match TemporaryFailure::from_str(s) {
                Ok(inner) => Ok(Status::TemporaryFailure(inner)),
                Err(e) => Err(e),
            }
        } else if family == 5 {
            match PermanentFailure::from_str(s) {
                Ok(inner) => Ok(Status::PermanentFailure(inner)),
                Err(e) => Err(e),
            }
        } else if family == 6 {
            match ClientCertificateRequired::from_str(s) {
                Ok(inner) => Ok(Status::ClientCertificateRequired(inner)),
                Err(e) => Err(e),
            }
        } else {
            Err(Error::UnknownCode(code.value()))
        }
    }

    /// The status code.
    pub fn code(&self) -> (c: Code)
        ensures
            c.raw() == self@.code,
    {
        match self {
            Status::Input(inner) => inner.code(),
            Status::Success(inner) => inner.code(),
            Status::Redirect(inner) => inner.code(),
            Status::TemporaryFailure(inner) => inner.code(),
            Status::PermanentFailure(inner) => inner.code(),
            Status::ClientCertificateRequired(inner) => inner.code(),
        }
    }

    /// The status line in full: the code, a space, the meta text, and the
    /// line terminator.
    pub fn to_string(&self) -> (s: String)
        ensures
            s@ == rendered_line(self@),
    {
        proof {
            reveal_strlit("\r\n");
            assert("\r\n"@ =~= seq!['\r', '\n']);
        }
        let mut s = match self {
            Status::Input(inner) => inner.to_string(),
            Status::Success(inner) => inner.to_string(),
            Status::Redirect(inner) => inner.to_string(),
            Status::TemporaryFailure(inner) => inner.to_string(),
            Status::PermanentFailure(inner) => inner.to_string(),
            Status::ClientCertificateRequired(inner) => inner.to_string(),
        };
        s.append("\r\n");
        s
    }
}

impl From<Code> for u8 {
    fn from(code: Code) -> (v: u8) {
        code.value()
    }
}

impl vstd::std_specs::convert::FromSpecImpl<Code> for u8 {
    open spec fn obeys_from_spec() -> bool {
        true
    }

    open spec fn from_spec(code: Code) -> u8 {
        code.raw()
    }
}

} // verus!
