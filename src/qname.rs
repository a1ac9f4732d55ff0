use vstd::prelude::*;

verus! {

/// A qualified name, like `core::parseNumber`.
#[derive(Clone, Debug, PartialEq)]
pub struct Qname(String);

impl View for Qname {
    type V = Seq<char>;

    closed spec fn view(&self) -> Seq<char> {
        self.0@
    }
}

impl Qname {
    pub fn new(s: String) -> (r: Self)
        ensures
            r@ == s@,
    {
        Qname(s)
    }

    /// Return a string slice containing the contents of this `Qname`.
    pub fn qname(&self) -> (r: &str)
        ensures
            r@ == self@,
    {
        self.0.as_str()
    }

    /// The qualified name as text.
    pub fn to_string(&self) -> (r: String)
        ensures
            r@ == self@,
    {
        self.0.clone()
    }
}

} // verus!
