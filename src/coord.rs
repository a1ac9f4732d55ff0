use vstd::prelude::*;

verus! {

/// A Haystack Coord, a geographical coordinate. The latitude and the
/// longitude are doubles, held by their IEEE-754 bits.
#[derive(Clone, Copy, Debug, PartialEq, Eq, Structural)]
pub struct Coord {
    pub lat: u64,
    pub lng: u64,
}

impl Coord {
    /// Create a new `Coord` from the bits of its latitude and longitude.
    pub fn new(lat: u64, lng: u64) -> (r: Self)
        ensures
            r == (Coord { lat, lng }),
    {
        Coord { lat, lng }
    }

    /// The bits of the latitude.
    pub fn lat(&self) -> (r: u64)
        ensures
            r == self.lat,
    {
        self.lat
    }

    /// The bits of the longitude.
    pub fn lng(&self) -> (r: u64)
        ensures
            r == self.lng,
    {
        self.lng
    }
}

} // verus!
