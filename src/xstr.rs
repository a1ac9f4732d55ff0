use vstd::prelude::*;

verus! {

/// A Haystack XStr: a value in text form with the name of its type.
#[derive(Clone, Debug, Eq, PartialEq)]
pub struct Xstr {
    type_str: String,
    value: String,
}

/// The type name and the value of an `Xstr`.
pub struct XstrView {
    pub type_str: Seq<char>,
    pub value: Seq<char>,
}

impl View for Xstr {
    type V = XstrView;

    closed spec fn view(&self) -> XstrView {
        XstrView { type_str: self.type_str@, value: self.value@ }
    }
}

impl Xstr {
    /// Create a new `Xstr`.
    pub fn new(type_str: String, value: String) -> (r: Self)
        ensures
            r@.type_str == type_str@,
            r@.value == value@,
    {
        Xstr { type_str, value }
    }

    pub fn type_str(&self) -> (r: &str)
        ensures
            r@ == self@.type_str,
    {
        self.type_str.as_str()
    }

    pub fn value(&self) -> (r: &str)
        ensures
            r@ == self@.value,
    {
        self.value.as_str()
    }

    /// Return this `Xstr` as Axon code: `xstr("<type>", "<value>")`.
    pub fn to_axon_code(&self) -> (r: String)
        ensures
            r@ == "xstr(\""@ + self@.type_str + "\", \""@ + self@.value + "\")"@,
    {
        let mut r = String::from_str("xstr(\"");
        r.append(self.type_str.as_str());
        r.append("\", \"");
        r.append(self.value.as_str());
        r.append("\")");
        r
    }

    /// The text form of this `Xstr`: `<type>("<value>")`.
    pub fn to_string(&self) -> (r: String)
        ensures
            r@ == self@.type_str + "(\""@ + self@.value + "\")"@,
    {
        let mut r = self.type_str.clone();
        r.append("(\"");
        r.append(self.value.as_str());
        r.append("\")");
        r
    }
}

} // verus!
