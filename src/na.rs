use vstd::prelude::*;

verus! {

/// A Haystack NA (not available).
#[derive(Clone, Copy, Debug, PartialEq, Eq, Structural)]
pub struct Na;

impl Na {
    pub fn new() -> (r: Self)
        ensures
            r == Na,
    {
        Na
    }
}

impl Default for Na {
    fn default() -> (r: Self)
        ensures
            r == Na,
    {
        Na
    }
}

} // verus!
