use vstd::prelude::*;

use crate::text::{find_first, first_occurrence, replace_first, replace_first_text};

verus! {

/// The pattern that each section of a symbol is searched for.
const SECTION_PATTERN: &'static str = "[a-z][a-zA-Z0-9_]*(-[a-z][a-zA-Z0-9_])*";

pub open spec fn is_ascii_lower(c: char) -> bool {
    'a' <= c && c <= 'z'
}

/// Whether the section pattern `[a-z][a-zA-Z0-9_]*(-[a-z][a-zA-Z0-9_])*`
/// matches somewhere in `s`. Every match of it begins with a lowercase ASCII
/// letter, and such a letter alone is a match, so a match exists exactly
/// when `s` holds a lowercase ASCII letter.
pub open spec fn section_matches(s: Seq<char>) -> bool {
    exists|i: int| 0 <= i < s.len() && is_ascii_lower(#[trigger] s[i])
}

/// Relies on `regex::Regex::new`, which accepts the constant pattern, and on
/// `regex::Regex::is_match`, which is true when the pattern matches anywhere
/// in the haystack.
#[verifier::external_body]
fn section_pattern_is_match(section: &str) -> (r: bool)
    ensures
        r == section_matches(section@),
{
    regex::Regex::new(SECTION_PATTERN).unwrap().is_match(section)
}

/// The symbol grammar: `^`, then one section, or two sections separated by
/// a single `:`, each of which matches the section pattern.
pub open spec fn symbol_grammar(s: Seq<char>) -> bool {
    &&& s.len() >= 1
    &&& s[0] == '^'
    &&& {
        let rest = s.subrange(1, s.len() as int);
        match first_occurrence(rest, seq![':']) {
            None => section_matches(rest),
            Some(i) => {
                let second = rest.subrange(i + 1, rest.len() as int);
                &&& first_occurrence(second, seq![':']) is None
                &&& section_matches(rest.subrange(0, i))
                &&& section_matches(second)
            },
        }
    }
}

/// A Haystack Symbol.
#[derive(Debug, Eq, PartialEq)]
pub struct Symbol(String);

impl Clone for Symbol {
    fn clone(&self) -> (r: Self)
        ensures
            r@ == self@,
    {
        proof {
            use_type_invariant(self);
        }
        Symbol(self.0.clone())
    }
}

impl View for Symbol {
    type V = Seq<char>;

    closed spec fn view(&self) -> Seq<char> {
        self.0@
    }
}

impl Symbol {
    #[verifier::type_invariant]
    closed spec fn well_formed(self) -> bool {
        symbol_grammar(self.0@)
    }

    /// Create a new `Symbol` from its native form, such as `^steam-boiler`.
    pub fn new(s: String) -> (r: Result<Symbol, ParseSymbolError>)
        ensures
            symbol_grammar(s@) ==> (r matches Ok(x) && x@ == s@),
            !symbol_grammar(s@) ==> (r matches Err(e) && e@ == s@),
    {
        if Self::is_valid_symbol(s.as_str()) {
            Ok(Symbol(s))
        } else {
            Err(ParseSymbolError::from_string(s))
        }
    }

    /// Decode a symbol from its wire form in a JSON string (`y:` in place of `^`).
    pub fn from_encoded_json_string(json_string: &str) -> (r: Result<Symbol, ParseSymbolError>)
        ensures
            ({
                let native = replace_first(json_string@, seq!['y', ':'], seq!['^']);
                &&& symbol_grammar(native) ==> (r matches Ok(x) && x@ == native)
                &&& !symbol_grammar(native) ==> (r matches Err(e) && e@ == native)
            }),
    {
        proof {
            reveal_strlit("y:");
            reveal_strlit("^");
            assert("y:"@ =~= seq!['y', ':']);
            assert("^"@ =~= seq!['^']);
        }
        Self::new(replace_first_text(json_string, "y:", "^"))
    }

    /// This symbol in its wire form for JSON strings: `y:` in place of `^`.
    pub fn to_encoded_json_string(&self) -> (r: String)
        ensures
            r@ == seq!['y', ':'] + self@.subrange(1, self@.len() as int),
    {
        proof {
            use_type_invariant(self);
            reveal_strlit("y:");
        }
        let len = self.0.as_str().unicode_len();
        let mut r = String::from_str("y:");
        r.append(self.0.as_str().substring_char(1, len));
        r
    }

    /// Convert this symbol into its native string.
    pub fn into_string(self) -> (r: String)
        ensures
            r@ == self@,
    {
        self.0
    }

    /// This symbol as an Axon symbol literal; it always satisfies the symbol grammar.
    pub fn to_axon_code(&self) -> (r: &str)
        ensures
            r@ == self@,
            symbol_grammar(self@),
    {
        proof {
            use_type_invariant(self);
        }
        self.0.as_str()
    }

    /// The text form of this symbol, the same as its Axon literal.
    pub fn to_string(&self) -> (r: String)
        ensures
            r@ == self@,
    {
        self.to_axon_code().to_owned()
    }

    /// Whether `s` satisfies the symbol grammar.
    pub fn is_valid_symbol(s: &str) -> (r: bool)
        ensures
            r == symbol_grammar(s@),
    {
        let len = s.unicode_len();
        if len == 0 || s.get_char(0) != '^' {
            return false;
        }
        let rest = s.substring_char(1, len);
        proof {
            reveal_strlit(":");
            assert(":"@ =~= seq![':']);
        }
        match find_first(rest, ":") {
            None => section_pattern_is_match(rest),
            Some(i) => {
                let rest_len = rest.unicode_len();
                let second = rest.substring_char(i + 1, rest_len);
                if find_first(second, ":").is_some() {
                    return false;
                }
                section_pattern_is_match(rest.substring_char(0, i)) && section_pattern_is_match(
                    second,
                )
            },
        }
    }
}

impl std::str::FromStr for Symbol {
    type Err = ParseSymbolError;

    fn from_str(s: &str) -> Result<Self, Self::Err> {
        if Self::is_valid_symbol(s) {
            Ok(Symbol(s.to_owned()))
        } else {
            Err(ParseSymbolError::from_string(s.to_owned()))
        }
    }
}

impl AsRef<str> for Symbol {
    fn as_ref(&self) -> &str {
        self.0.as_str()
    }
}

/// An error indicating that a `Symbol` could not be parsed.
#[derive(Clone, Debug, Eq, PartialEq)]
pub struct ParseSymbolError {
    unparsable_symbol: String,
}

impl View for ParseSymbolError {
    type V = Seq<char>;

    /// The text that could not be parsed.
    closed spec fn view(&self) -> Seq<char> {
        self.unparsable_symbol@
    }
}

impl ParseSymbolError {
    pub(crate) fn from_string(s: String) -> (r: Self)
        ensures
            r@ == s@,
    {
        ParseSymbolError { unparsable_symbol: s }
    }

    /// A message naming the text that could not be parsed.
    pub fn to_string(&self) -> (r: String)
        ensures
            r@ == "Could not parse a Symbol from the string "@ + self@,
    {
        let mut r = String::from_str("Could not parse a Symbol from the string ");
        r.append(self.unparsable_symbol.as_str());
        r
    }
}

} // verus!
