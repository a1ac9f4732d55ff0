use vstd::prelude::*;

use crate::hsref::is_ascii_alphanumeric;
use crate::symbol::is_ascii_lower;

verus! {

/// The tag name grammar: a lowercase ASCII letter, then ASCII letters, digits
/// or underscores.
pub open spec fn tag_name_grammar(s: Seq<char>) -> bool {
    &&& s.len() >= 1
    &&& is_ascii_lower(s[0])
    &&& forall|i: int| 1 <= i < s.len() ==> is_tag_name_char(#[trigger] s[i])
}

pub open spec fn is_tag_name_char(c: char) -> bool {
    is_ascii_alphanumeric(c) || c == '_'
}

/// A Haystack tag name.
#[derive(Debug, Eq, Hash, PartialEq)]
pub struct TagName(String);

impl Clone for TagName {
    fn clone(&self) -> (r: Self)
        ensures
            r@ == self@,
    {
        proof {
            use_type_invariant(self);
        }
        TagName(self.0.clone())
    }
}

impl View for TagName {
    type V = Seq<char>;

    closed spec fn view(&self) -> Seq<char> {
        self.0@
    }
}

impl TagName {
    #[verifier::type_invariant]
    closed spec fn well_formed(self) -> bool {
        tag_name_grammar(self.0@)
    }

    /// Create a new `TagName`, if `s` satisfies the tag name grammar.
    pub fn new(s: String) -> (r: Option<TagName>)
        ensures
            tag_name_grammar(s@) ==> (r matches Some(x) && x@ == s@),
            !tag_name_grammar(s@) ==> r is None,
    {
        if is_tag_name(s.as_str()) {
            Some(TagName(s))
        } else {
            None
        }
    }

    /// Return the tag name string.
    pub fn into_string(self) -> (r: String)
        ensures
            r@ == self@,
    {
        self.0
    }

    /// The tag name as text.
    pub fn to_string(&self) -> (r: String)
        ensures
            r@ == self@,
    {
        self.0.clone()
    }
}

impl std::str::FromStr for TagName {
    type Err = ParseTagNameError;

    fn from_str(s: &str) -> Result<Self, Self::Err> {
        if is_tag_name(s) {
            Ok(TagName(s.to_owned()))
        } else {
            Err(ParseTagNameError { unparsable_tag_name: s.to_owned() })
        }
    }
}

impl AsRef<str> for TagName {
    fn as_ref(&self) -> &str {
        self.0.as_str()
    }
}

impl AsRef<[u8]> for TagName {
    fn as_ref(&self) -> &[u8] {
        self.0.as_str().as_bytes()
    }
}

fn is_lowercase_letter(c: char) -> (r: bool)
    ensures
        r == is_ascii_lower(c),
{
    'a' <= c && c <= 'z'
}

fn is_tag_name_continuation(c: char) -> (r: bool)
    ensures
        r == is_tag_name_char(c),
{
    ('a' <= c && c <= 'z') || ('A' <= c && c <= 'Z') || ('0' <= c && c <= '9') || c == '_'
}

/// Return true if the string is a valid tag name.
pub fn is_tag_name(s: &str) -> (r: bool)
    ensures
        r == tag_name_grammar(s@),
{
    let len = s.unicode_len();
    if len == 0 || !is_lowercase_letter(s.get_char(0)) {
        return false;
    }
    let mut i: usize = 1;
    while i < len
        invariant
            len == s@.len(),
            1 <= i <= len,
            forall|k: int| 1 <= k < i ==> is_tag_name_char(#[trigger] s@[k]),
        decreases len - i,
    {
        if !is_tag_name_continuation(s.get_char(i)) {
            return false;
        }
        i = i + 1;
    }
    true
}

/// An error indicating that a `TagName` could not be parsed.
#[derive(Clone, Debug, Eq, PartialEq)]
pub struct ParseTagNameError {
    unparsable_tag_name: String,
}

impl View for ParseTagNameError {
    type V = Seq<char>;

    /// The text that could not be parsed.
    closed spec fn view(&self) -> Seq<char> {
        self.unparsable_tag_name@
    }
}

impl ParseTagNameError {
    /// A message naming the text that could not be parsed.
    pub fn to_string(&self) -> (r: String)
        ensures
            r@ == "Could not parse a tag name from the string "@ + self@,
    {
        let mut r = String::from_str("Could not parse a tag name from the string ");
        r.append(self.unparsable_tag_name.as_str());
        r
    }
}

} // verus!
