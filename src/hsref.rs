use vstd::prelude::*;

use crate::text::{before_first, replace_first, replace_first_text, text_before_first};

verus! {

/// What `char::is_alphanumeric` says of a character outside ASCII: whether
/// it has the Unicode `Alphabetic` or `Numeric` property.
pub uninterp spec fn unicode_alphanumeric(c: char) -> bool;

/// A letter or a digit: among ASCII characters exactly the ASCII letters and
/// digits, elsewhere what the Unicode properties say.
pub open spec fn is_alphanumeric(c: char) -> bool {
    if (c as u32) < 128 {
        is_ascii_alphanumeric(c)
    } else {
        unicode_alphanumeric(c)
    }
}

/// An ASCII letter or digit.
pub open spec fn is_ascii_alphanumeric(c: char) -> bool {
    ('a' <= c && c <= 'z') || ('A' <= c && c <= 'Z') || ('0' <= c && c <= '9')
}

/// Relies on `char::is_alphanumeric`: Unicode `Alphabetic` or `Numeric`. Among
/// ASCII characters those are exactly the letters and the digits.
#[verifier::external_body]
fn char_is_alphanumeric(c: char) -> (r: bool)
    ensures
        (c as u32) < 128 ==> (r == is_ascii_alphanumeric(c)),
        (c as u32) >= 128 ==> (r == unicode_alphanumeric(c)),
{
    c.is_alphanumeric()
}

/// A punctuation character allowed in a ref's id.
pub open spec fn is_ref_punctuation(c: char) -> bool {
    c == '_' || c == ':' || c == '-' || c == '.' || c == '~'
}

/// A character allowed in a ref's id.
pub open spec fn is_ref_char(c: char) -> bool {
    is_alphanumeric(c) || is_ref_punctuation(c)
}

/// The ref grammar: `@` followed by one or more id characters.
pub open spec fn ref_grammar(s: Seq<char>) -> bool {
    &&& s.len() >= 2
    &&& s[0] == '@'
    &&& forall|i: int| 1 <= i < s.len() ==> is_ref_char(#[trigger] s[i])
}

/// A Haystack Ref.
#[derive(Debug, Eq, PartialEq)]
pub struct Ref(String);

impl Clone for Ref {
    fn clone(&self) -> (r: Self)
        ensures
            r@ == self@,
    {
        proof {
            use_type_invariant(self);
        }
        Ref(self.0.clone())
    }
}

impl View for Ref {
    type V = Seq<char>;

    closed spec fn view(&self) -> Seq<char> {
        self.0@
    }
}

impl Ref {
    #[verifier::type_invariant]
    closed spec fn well_formed(self) -> bool {
        ref_grammar(self.0@)
    }

    /// Create a new `Ref` from its native form, such as `@p:bigProject:r:24efe1c4`.
    pub fn new(s: String) -> (r: Result<Ref, ParseRefError>)
        ensures
            ref_grammar(s@) ==> (r matches Ok(x) && x@ == s@),
            !ref_grammar(s@) ==> (r matches Err(e) && e@ == s@),
    {
        if Self::is_valid_ref(s.as_str()) {
            Ok(Ref(s))
        } else {
            Err(ParseRefError::from_string(s))
        }
    }

    /// Decode a ref from its wire form in a JSON string (`r:` in place of `@`).
    /// Only the text before the first space is read.
    pub fn from_encoded_json_string(json_string: &str) -> (r: Result<Ref, ParseRefError>)
        ensures
            ({
                let native = replace_first(before_first(json_string@, ' '), seq!['r', ':'], seq!['@']);
                &&& ref_grammar(native) ==> (r matches Ok(x) && x@ == native)
                &&& !ref_grammar(native) ==> (r matches Err(e) && e@ == native)
            }),
    {
        proof {
            reveal_strlit(" ");
            reveal_strlit("r:");
            reveal_strlit("@");
            assert(" "@ =~= seq![' ']);
            assert("r:"@ =~= seq!['r', ':']);
            assert("@"@ =~= seq!['@']);
        }
        let raw_id = text_before_first(json_string, " ");
        Self::new(replace_first_text(raw_id, "r:", "@"))
    }

    /// This ref in its wire form for JSON strings: `r:` in place of `@`.
    pub fn to_encoded_json_string(&self) -> (r: String)
        ensures
            r@ == seq!['r', ':'] + self@.subrange(1, self@.len() as int),
    {
        proof {
            use_type_invariant(self);
            reveal_strlit("r:");
        }
        let len = self.0.as_str().unicode_len();
        let mut r = String::from_str("r:");
        r.append(self.0.as_str().substring_char(1, len));
        r
    }

    /// Convert this ref into its native string.
    pub fn into_string(self) -> (r: String)
        ensures
            r@ == self@,
    {
        self.0
    }

    /// This ref as an Axon ref literal; it always satisfies the ref grammar.
    pub fn to_axon_code(&self) -> (r: &str)
        ensures
            r@ == self@,
            ref_grammar(self@),
    {
        proof {
            use_type_invariant(self);
        }
        self.0.as_str()
    }

    /// The text form of this ref, the same as its Axon literal.
    pub fn to_string(&self) -> (r: String)
        ensures
            r@ == self@,
    {
        self.to_axon_code().to_owned()
    }

    /// Whether `s` satisfies the ref grammar.
    pub fn is_valid_ref(s: &str) -> (r: bool)
        ensures
            r == ref_grammar(s@),
    {
        let len = s.unicode_len();
        if len < 2 || s.get_char(0) != '@' {
            return false;
        }
        let mut i: usize = 1;
        while i < len
            invariant
                len == s@.len(),
                1 <= i <= len,
                forall|k: int| 1 <= k < i ==> is_ref_char(#[trigger] s@[k]),
            decreases len - i,
        {
            if !Self::is_valid_ref_char(s.get_char(i)) {
                return false;
            }
            i = i + 1;
        }
        true
    }

    fn is_valid_ref_char(c: char) -> (r: bool)
        ensures
            r == is_ref_char(c),
    {
        char_is_alphanumeric(c) || Self::is_valid_symbol_char(c)
    }

    fn is_valid_symbol_char(c: char) -> (r: bool)
        ensures
            r == is_ref_punctuation(c),
    {
        c == '_' || c == ':' || c == '-' || c == '.' || c == '~'
    }
}

impl std::str::FromStr for Ref {
    type Err = ParseRefError;

    fn from_str(s: &str) -> Result<Self, Self::Err> {
        if Self::is_valid_ref(s) {
            Ok(Ref(s.to_owned()))
        } else {
            Err(ParseRefError::from_str(s))
        }
    }
}

impl AsRef<str> for Ref {
    fn as_ref(&self) -> &str {
        self.0.as_str()
    }
}

/// An error indicating that a `Ref` could not be parsed.
#[derive(Clone, Debug, Eq, PartialEq)]
pub struct ParseRefError {
    unparsable_ref: String,
}

impl View for ParseRefError {
    type V = Seq<char>;

    /// The text that could not be parsed.
    closed spec fn view(&self) -> Seq<char> {
        self.unparsable_ref@
    }
}

impl ParseRefError {
    pub(crate) fn from_str(s: &str) -> (r: Self)
        ensures
            r@ == s@,
    {
        ParseRefError { unparsable_ref: s.to_owned() }
    }

    pub(crate) fn from_string(s: String) -> (r: Self)
        ensures
            r@ == s@,
    {
        ParseRefError { unparsable_ref: s }
    }

    /// A message naming the text that could not be parsed.
    pub fn to_string(&self) -> (r: String)
        ensures
            r@ == "Could not parse a Ref from the string "@ + self@,
    {
        let mut r = String::from_str("Could not parse a Ref from the string ");
        r.append(self.unparsable_ref.as_str());
        r
    }
}

} // verus!
