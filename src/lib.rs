//! Project Haystack scalar value types and their Hayson (JSON) encoding.
//!
//! Doubles are held by their IEEE-754 bit patterns; the codec works on the
//! JSON model in `json`. The proved laws of the codec and of the grammars
//! are in `laws`.

pub mod coord;
pub mod hayson;
pub mod hsref;
pub mod json;
pub mod laws;
pub mod marker;
pub mod na;
pub mod number;
pub mod number_text;
pub mod qname;
pub mod symbol;
pub mod tag;
pub mod text;
pub mod uri;
pub mod xstr;

pub use coord::Coord;
pub use hayson::{FromHaysonError, HaysonErrorKind};
pub use hsref::{ParseRefError, Ref};
pub use json::Json;
pub use marker::{Marker, RemoveMarker};
pub use na::Na;
pub use number::{BasicNumber, Number, ScientificNumber};
pub use number_text::{parse_number_text, NumberLiteral, NumberText, ParseNumberError};
pub use qname::Qname;
pub use symbol::{ParseSymbolError, Symbol};
pub use tag::{is_tag_name, ParseTagNameError, TagName};
pub use uri::Uri;
pub use xstr::{Xstr, XstrView};
