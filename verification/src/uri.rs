//! The target of a redirect.

use vstd::prelude::*;
use vstd::string::*;

verus! {

/// A URI, held as it was written.
#[derive(Clone, Debug, PartialEq, Eq, Hash, PartialOrd, Ord)]
pub struct URI {
    text: String,
}

impl View for URI {
    type V = Seq<char>;

    closed spec fn view(&self) -> Seq<char> {
        self.text@
    }
}

impl URI {
    /// Takes the text as a URI; every text is one.
    pub fn from_str(s: &str) -> (uri: URI)
        ensures
            uri@ == s@,
    {
        URI { text: String::from_str(s) }
    }

    /// The text of the URI.
    pub fn as_str(&self) -> (s: &str)
        ensures
            s@ == self@,
    {
        self.text.as_str()
    }

    /// The text of the URI, as its own string.
    pub fn to_string(&self) -> (s: String)
        ensures
            s@ == self@,
    {
        self.text.clone()
    }
}

} // verus!
