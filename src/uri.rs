use vstd::prelude::*;

verus! {

/// A Haystack Uri.
#[derive(Clone, Debug, Eq, PartialEq)]
pub struct Uri(String);

impl View for Uri {
    type V = Seq<char>;

    closed spec fn view(&self) -> Seq<char> {
        self.0@
    }
}

impl Uri {
    /// Create a new `Uri`.
    pub fn new(s: String) -> (r: Self)
        ensures
            r@ == s@,
    {
        Uri(s)
    }

    /// The text of this uri.
    pub fn as_str(&self) -> (r: &str)
        ensures
            r@ == self@,
    {
        self.0.as_str()
    }

    /// Convert this Uri into a string.
    pub fn into_string(self) -> (r: String)
        ensures
            r@ == self@,
    {
        self.0
    }

    /// Return this uri as an Axon Uri literal: the text between back-ticks.
    pub fn to_axon_code(&self) -> (r: String)
        ensures
            r@ == seq!['`'] + self@ + seq!['`'],
    {
        proof {
            reveal_strlit("`");
        }
        let mut r = String::from_str("`");
        r.append(self.0.as_str());
        r.append("`");
        r
    }

    /// The text form of this uri, the same as its Axon literal.
    pub fn to_string(&self) -> (r: String)
        ensures
            r@ == seq!['`'] + self@ + seq!['`'],
    {
        self.to_axon_code()
    }
}

impl AsRef<str> for Uri {
    fn as_ref(&self) -> &str {
        self.0.as_str()
    }
}

} // verus!
