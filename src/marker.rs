use vstd::prelude::*;

verus! {

/// A Haystack marker.
#[derive(Clone, Copy, Debug, PartialEq, Eq, Structural)]
pub struct Marker;

impl Marker {
    pub fn new() -> (r: Self)
        ensures
            r == Marker,
    {
        Marker
    }
}

impl Default for Marker {
    fn default() -> (r: Self)
        ensures
            r == Marker,
    {
        Marker
    }
}

/// A Haystack remove marker.
#[derive(Clone, Copy, Debug, PartialEq, Eq, Structural)]
pub struct RemoveMarker;

impl RemoveMarker {
    pub fn new() -> (r: Self)
        ensures
            r == RemoveMarker,
    {
        RemoveMarker
    }
}

impl Default for RemoveMarker {
    fn default() -> (r: Self)
        ensures
            r == RemoveMarker,
    {
        RemoveMarker
    }
}

} // verus!
