//! Text values and identifiers.

use vstd::prelude::*;
use vstd::string::*;

verus! {

/// A text value. A well-formed text is not empty: decoding refuses an empty text,
/// and the validator reports the empty texts that matter in a tree built by
/// hand. The constructor takes any string.
#[derive(Debug, PartialEq, Eq, Hash)]
pub struct Text(pub String);

/// An identifier is a text value.
pub type Id = Text;

impl View for Text {
    type V = Seq<char>;

    open spec fn view(&self) -> Seq<char> {
        self.0@
    }
}

impl DeepView for Text {
    type V = Seq<char>;

    open spec fn deep_view(&self) -> Seq<char> {
        self.0@
    }
}

/// How an identifier reads in diagnostics: `id:` and then the value.
pub open spec fn id_label(value: Seq<char>) -> Seq<char> {
    "id:"@ + value
}

impl Clone for Text {
    fn clone(&self) -> (r: Text)
        ensures
            r@ == self@,
    {
        Text(self.0.clone())
    }
}

impl Text {
    /// Makes a text value that holds `text`.
    pub fn new(text: &str) -> (r: Text)
        ensures
            r@ == text@,
    {
        Text(String::from_str(text))
    }

    /// The text itself.
    pub fn as_str(&self) -> (r: &str)
        ensures
            r@ == self@,
    {
        self.0.as_str()
    }

    /// Whether the text holds no character at all.
    pub fn is_empty(&self) -> (r: bool)
        ensures
            r == (self@.len() == 0),
    {
        self.0.as_str().is_empty()
    }

    /// The form used in diagnostics, `id:<value>`.
    pub fn to_string(&self) -> (r: String)
        ensures
            r@ == id_label(self@),
    {
        String::from_str("id:").concat(self.0.as_str())
    }
}

/// Whether two strings hold the same characters.
pub fn str_eq(a: &str, b: &str) -> (r: bool)
    ensures
        r == (a@ == b@),
{
    String::from_str(a) == String::from_str(b)
}

} // verus!
