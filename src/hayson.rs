use vstd::prelude::*;

use crate::coord::Coord;
use crate::hsref::{ref_grammar, Ref};
use crate::json::{
    double_entry, double_field, is_flat_object, json_get, text_entry, FieldValue, Json,
};
use crate::marker::{Marker, RemoveMarker};
use crate::na::Na;
use crate::number::{
    is_nan, BasicNumberView, Number, NumberView, ScientificNumberView, NAN_BITS,
    NEG_INFINITY_BITS, POS_INFINITY_BITS,
};
use crate::symbol::{symbol_grammar, Symbol};
use crate::text::same_text;
use crate::uri::Uri;
use crate::xstr::{Xstr, XstrView};

verus! {

/// The kinds of decoding failure.
#[derive(Clone, Copy, Debug, PartialEq, Eq, Structural)]
pub enum HaysonErrorKind {
    /// The value is not an object, or the object has no `_kind` key.
    MissingTag,
    /// The `_kind` key does not hold a string.
    TagNotString,
    /// The `_kind` key names another type.
    TagMismatch,
    /// A required key is absent.
    MissingField,
    /// A key holds a value of the wrong type.
    WrongFieldType,
    /// A rebuilt ref or symbol fails its grammar.
    InvalidGrammar,
    /// A number's `val` string is none of `INF`, `-INF` and `NaN`.
    InvalidLiteral,
}

/// A failure to decode a value from Hayson: its kind and a message for people.
#[derive(Clone, Debug)]
pub struct FromHaysonError {
    kind: HaysonErrorKind,
    message: String,
}

impl View for FromHaysonError {
    type V = HaysonErrorKind;

    closed spec fn view(&self) -> HaysonErrorKind {
        self.kind
    }
}

impl FromHaysonError {
    pub fn new(kind: HaysonErrorKind, message: String) -> (r: Self)
        ensures
            r@ == kind,
    {
        FromHaysonError { kind, message }
    }

    pub fn kind(&self) -> (r: HaysonErrorKind)
        ensures
            r == self@,
    {
        self.kind
    }

    pub fn message(&self) -> &str {
        self.message.as_str()
    }
}

fn error<T>(kind: HaysonErrorKind, message: &str) -> (r: Result<T, FromHaysonError>)
    ensures
        r matches Err(e) && e@ == kind,
{
    Err(FromHaysonError::new(kind, message.to_owned()))
}

fn error_opt(kind: HaysonErrorKind, message: &str) -> (r: Option<FromHaysonError>)
    ensures
        r matches Some(e) && e@ == kind,
{
    Some(FromHaysonError::new(kind, message.to_owned()))
}

/// The key that names a value's type.
pub open spec fn kind_key() -> Seq<char> {
    "_kind"@
}

/// The failure of the tag check of `j` against `tag`, or none when `j` is an
/// object whose `_kind` key holds the string `tag`.
pub open spec fn tag_error(j: Json, tag: Seq<char>) -> Option<HaysonErrorKind> {
    match json_get(j, kind_key()) {
        None => Some(HaysonErrorKind::MissingTag),
        Some(Json::String(s)) => {
            if s@ == tag {
                None
            } else {
                Some(HaysonErrorKind::TagMismatch)
            }
        },
        Some(_) => Some(HaysonErrorKind::TagNotString),
    }
}

pub open spec fn error_kind(e: Option<FromHaysonError>) -> Option<HaysonErrorKind> {
    match e {
        Some(x) => Some(x@),
        None => None,
    }
}

/// The view of a decoding result: the value's view or the error's kind.
pub open spec fn decoded<T: View>(r: Result<T, FromHaysonError>) -> Result<T::V, HaysonErrorKind> {
    match r {
        Ok(x) => Ok(x@),
        Err(e) => Err(e@),
    }
}

/// The kind of the result when only the tag is checked.
pub open spec fn decoded_unit<T>(r: Result<T, FromHaysonError>) -> Option<HaysonErrorKind> {
    match r {
        Ok(_) => None,
        Err(e) => Some(e@),
    }
}

/// Check that `value` is an object whose `_kind` key holds `target_kind`.
fn check_kind(target_kind: &str, value: &Json) -> (r: Option<FromHaysonError>)
    ensures
        error_kind(r) == tag_error(*value, target_kind@),
{
    match value.get("_kind") {
        Some(kind) => match kind {
            Json::String(kind) => {
                if same_text(kind.as_str(), target_kind) {
                    None
                } else {
                    let mut message = String::from_str("Expected '_kind' = ");
                    message.append(target_kind);
                    message.append(" but found ");
                    message.append(kind.as_str());
                    error_opt(HaysonErrorKind::TagMismatch, message.as_str())
                }
            },
            _ => error_opt(HaysonErrorKind::TagNotString, "'_kind' key is not a string"),
        },
        None => error_opt(HaysonErrorKind::MissingTag, "Missing '_kind' key"),
    }
}

// Refs.

pub open spec fn ref_from_json(j: Json) -> Result<Seq<char>, HaysonErrorKind> {
    match tag_error(j, "ref"@) {
        Some(e) => Err(e),
        None => match json_get(j, "val"@) {
            None => Err(HaysonErrorKind::MissingField),
            Some(Json::String(v)) => {
                let s = seq!['@'] + v@;
                if ref_grammar(s) {
                    Ok(s)
                } else {
                    Err(HaysonErrorKind::InvalidGrammar)
                }
            },
            Some(_) => Err(HaysonErrorKind::WrongFieldType),
        },
    }
}

pub open spec fn ref_fields(r: Seq<char>) -> Seq<(Seq<char>, FieldValue)> {
    seq![
        (kind_key(), FieldValue::Text("ref"@)),
        ("val"@, FieldValue::Text(r.subrange(1, r.len() as int))),
    ]
}

impl Ref {
    /// Decode a ref from `{"_kind": "ref", "val": <id without the @>}`.
    pub fn from_hayson(value: &Json) -> (r: Result<Ref, FromHaysonError>)
        ensures
            decoded(r) == ref_from_json(*value),
    {
        if !value.is_object() {
            return error(HaysonErrorKind::MissingTag, "Ref JSON value must be an object");
        }
        if let Some(kind_err) = check_kind("ref", value) {
            return Err(kind_err);
        }
        let val = match value.get("val") {
            Some(val) => val,
            None => return error(HaysonErrorKind::MissingField, "Ref val is missing"),
        };
        let val = match val.as_str() {
            Some(val) => val,
            None => return error(HaysonErrorKind::WrongFieldType, "Ref val is not a string"),
        };
        proof {
            reveal_strlit("@");
            assert("@"@ =~= seq!['@']);
        }
        let mut ref_str = String::from_str("@");
        ref_str.append(val);
        if !Ref::is_valid_ref(ref_str.as_str()) {
            let mut message = String::from_str("Ref val is not valid: ");
            message.append(ref_str.as_str());
            return error(HaysonErrorKind::InvalidGrammar, message.as_str());
        }
        match Ref::new(ref_str) {
            Ok(r) => Ok(r),
            Err(_) => error(HaysonErrorKind::InvalidGrammar, "Ref val is not valid"),
        }
    }

    /// Encode this ref as `{"_kind": "ref", "val": <id without the @>}`.
    pub fn to_hayson(&self) -> (r: Json)
        ensures
            is_flat_object(r, ref_fields(self@)),
    {
        let code = self.to_axon_code();
        let len = code.unicode_len();
        let mut fields: Vec<(String, Json)> = Vec::new();
        fields.push(text_entry("_kind", "ref"));
        fields.push(text_entry("val", code.substring_char(1, len)));
        Json::Object(fields)
    }
}

// Numbers.

/// The `unit` key of a number object: absent or null for no unit, or a string.
pub open spec fn unit_from_json(u: Option<Json>) -> Result<Option<Seq<char>>, HaysonErrorKind> {
    match u {
        None => Ok(None),
        Some(Json::Null) => Ok(None),
        Some(Json::String(s)) => Ok(Some(s@)),
        Some(_) => Err(HaysonErrorKind::WrongFieldType),
    }
}

pub open spec fn plain(value: u64, unit: Option<Seq<char>>) -> NumberView {
    NumberView::Basic(BasicNumberView { value, unit })
}

/// Decoding a number: a bare JSON number, or an object whose `val` is a
/// number or one of `INF`, `-INF` and `NaN`, with an optional `unit`. A NaN
/// never keeps a unit.
pub open spec fn number_from_json(j: Json) -> Result<NumberView, HaysonErrorKind> {
    match j {
        Json::Number(bits) => Ok(plain(bits, None)),
        _ => match tag_error(j, "number"@) {
            Some(e) => Err(e),
            None => match json_get(j, "val"@) {
                None => Err(HaysonErrorKind::MissingField),
                Some(val) => match unit_from_json(json_get(j, "unit"@)) {
                    Err(e) => Err(e),
                    Ok(unit) => match val {
                        Json::String(s) => {
                            if s@ == "INF"@ {
                                Ok(plain(POS_INFINITY_BITS, unit))
                            } else if s@ == "-INF"@ {
                                Ok(plain(NEG_INFINITY_BITS, unit))
                            } else if s@ == "NaN"@ {
                                Ok(plain(NAN_BITS, None))
                            } else {
                                Err(HaysonErrorKind::InvalidLiteral)
                            }
                        },
                        Json::Number(bits) => Ok(plain(bits, unit)),
                        _ => Err(HaysonErrorKind::WrongFieldType),
                    },
                },
            },
        },
    }
}

pub open spec fn unit_field(unit: Option<Seq<char>>) -> FieldValue {
    match unit {
        Some(u) => FieldValue::Text(u),
        None => FieldValue::Null,
    }
}

/// A number object with a finite value and its unit, or null for none.
pub open spec fn finite_number_fields(value: u64, unit: Option<Seq<char>>) -> Seq<
    (Seq<char>, FieldValue),
> {
    seq![
        (kind_key(), FieldValue::Text("number"@)),
        ("val"@, double_field(value)),
        ("unit"@, unit_field(unit)),
    ]
}

/// A number object whose value is one of the strings `NaN`, `INF` and `-INF`.
pub open spec fn special_number_fields(literal: Seq<char>) -> Seq<(Seq<char>, FieldValue)> {
    seq![(kind_key(), FieldValue::Text("number"@)), ("val"@, FieldValue::Text(literal))]
}

/// The encoding of a plain number. NaN and the infinities are written as
/// strings and lose their unit.
pub open spec fn basic_fields(n: BasicNumberView) -> Seq<(Seq<char>, FieldValue)> {
    if is_nan(n.value) {
        special_number_fields("NaN"@)
    } else if n.value == POS_INFINITY_BITS {
        special_number_fields("INF"@)
    } else if n.value == NEG_INFINITY_BITS {
        special_number_fields("-INF"@)
    } else {
        finite_number_fields(n.value, n.unit)
    }
}

/// The encoding of a scientific notation number, given the double that its
/// significand times ten to its exponent evaluates to.
pub open spec fn scientific_fields(n: ScientificNumberView, evaluated: u64) -> Seq<
    (Seq<char>, FieldValue),
> {
    finite_number_fields(evaluated, n.unit)
}

pub open spec fn number_fields(n: NumberView, evaluated: u64) -> Seq<(Seq<char>, FieldValue)> {
    match n {
        NumberView::Basic(b) => basic_fields(b),
        NumberView::Scientific(s) => scientific_fields(s, evaluated),
    }
}

fn number_object(value: u64, unit: Option<&str>) -> (r: Json)
    ensures
        is_flat_object(r, finite_number_fields(value, crate::number::text_view(unit))),
{
    let mut fields: Vec<(String, Json)> = Vec::new();
    fields.push(text_entry("_kind", "number"));
    fields.push(double_entry("val", value));
    match unit {
        Some(u) => fields.push(text_entry("unit", u)),
        None => fields.push(("unit".to_owned(), Json::Null)),
    }
    Json::Object(fields)
}

fn special_number_object(literal: &str) -> (r: Json)
    ensures
        is_flat_object(r, special_number_fields(literal@)),
{
    let mut fields: Vec<(String, Json)> = Vec::new();
    fields.push(text_entry("_kind", "number"));
    fields.push(text_entry("val", literal));
    Json::Object(fields)
}

impl Number {
    /// Decode a number from a bare JSON number or from
    /// `{"_kind": "number", "val": <number, "INF", "-INF" or "NaN">, "unit": <string or null>}`.
    pub fn from_hayson(value: &Json) -> (r: Result<Number, FromHaysonError>)
        ensures
            decoded(r) == number_from_json(*value),
    {
        if let Json::Number(bits) = value {
            return Ok(Number::new(*bits, None));
        }
        if !value.is_object() {
            return error(
                HaysonErrorKind::MissingTag,
                "Number JSON value must be a number or an object",
            );
        }
        if let Some(kind_err) = check_kind("number", value) {
            return Err(kind_err);
        }
        let val = match value.get("val") {
            Some(val) => val,
            None => return error(HaysonErrorKind::MissingField, "Number val is missing"),
        };
        let unit: Option<String> = match value.get("unit") {
            None => None,
            Some(Json::Null) => None,
            Some(Json::String(u)) => Some(u.clone()),
            Some(_) => return error(HaysonErrorKind::WrongFieldType, "Number unit is not a string"),
        };
        match val {
            Json::String(s) => {
                if same_text(s.as_str(), "INF") {
                    Ok(Number::new(POS_INFINITY_BITS, unit))
                } else if same_text(s.as_str(), "-INF") {
                    Ok(Number::new(NEG_INFINITY_BITS, unit))
                } else if same_text(s.as_str(), "NaN") {
                    Ok(Number::new(NAN_BITS, None))
                } else {
                    error(
                        HaysonErrorKind::InvalidLiteral,
                        "Number val is a string but is not one of INF, -INF or NaN",
                    )
                }
            },
            Json::Number(bits) => Ok(Number::new(*bits, unit)),
            _ => error(
                HaysonErrorKind::WrongFieldType,
                "Number val must be either a number or a string",
            ),
        }
    }

    /// Encode this number. NaN is written `{"_kind": "number", "val": "NaN"}`,
    /// the infinities likewise as `"INF"` and `"-INF"`, all without their unit.
    /// A finite value is written `{"_kind": "number", "val": <number>, "unit":
    /// <string or null>}`. A number in scientific notation is written as the
    /// plain double `evaluated`, which the caller computes as its significand
    /// times ten to its exponent; it is null when that is not finite.
    /// `evaluated` is not read for a plain number.
    pub fn to_hayson(&self, evaluated: u64) -> (r: Json)
        ensures
            is_flat_object(r, number_fields(self@, evaluated)),
    {
        match self {
            Number::Basic(basic_num) => {
                let value = basic_num.value();
                if crate::number::double_is_nan(value) {
                    special_number_object("NaN")
                } else if value == POS_INFINITY_BITS {
                    special_number_object("INF")
                } else if value == NEG_INFINITY_BITS {
                    special_number_object("-INF")
                } else {
                    proof {
                        crate::number::lemma_finite_classification(value);
                    }
                    number_object(value, basic_num.unit())
                }
            },
            Number::Scientific(sci_num) => number_object(evaluated, sci_num.unit()),
        }
    }
}

// Symbols.

pub open spec fn symbol_from_json(j: Json) -> Result<Seq<char>, HaysonErrorKind> {
    match tag_error(j, "symbol"@) {
        Some(e) => Err(e),
        None => match json_get(j, "val"@) {
            None => Err(HaysonErrorKind::MissingField),
            Some(Json::String(v)) => {
                let s = seq!['^'] + v@;
                if symbol_grammar(s) {
                    Ok(s)
                } else {
                    Err(HaysonErrorKind::InvalidGrammar)
                }
            },
            Some(_) => Err(HaysonErrorKind::WrongFieldType),
        },
    }
}

pub open spec fn symbol_fields(s: Seq<char>) -> Seq<(Seq<char>, FieldValue)> {
    seq![
        (kind_key(), FieldValue::Text("symbol"@)),
        ("val"@, FieldValue::Text(s.subrange(1, s.len() as int))),
    ]
}

impl Symbol {
    /// Decode a symbol from `{"_kind": "symbol", "val": <symbol without the ^>}`.
    pub fn from_hayson(value: &Json) -> (r: Result<Symbol, FromHaysonError>)
        ensures
            decoded(r) == symbol_from_json(*value),
    {
        if !value.is_object() {
            return error(HaysonErrorKind::MissingTag, "Symbol JSON value must be an object");
        }
        if let Some(kind_err) = check_kind("symbol", value) {
            return Err(kind_err);
        }
        let val = match value.get("val") {
            Some(val) => val,
            None => return error(HaysonErrorKind::MissingField, "Symbol val is missing"),
        };
        let val = match val.as_str() {
            Some(val) => val,
            None => return error(HaysonErrorKind::WrongFieldType, "Symbol val is not a string"),
        };
        proof {
            reveal_strlit("^");
            assert("^"@ =~= seq!['^']);
        }
        let mut symbol_str = String::from_str("^");
        symbol_str.append(val);
        if !Symbol::is_valid_symbol(symbol_str.as_str()) {
            let mut message = String::from_str("Symbol val is not valid: ");
            message.append(symbol_str.as_str());
            return error(HaysonErrorKind::InvalidGrammar, message.as_str());
        }
        match Symbol::new(symbol_str) {
            Ok(s) => Ok(s),
            Err(_) => error(HaysonErrorKind::InvalidGrammar, "Symbol val is not valid"),
        }
    }

    /// Encode this symbol as `{"_kind": "symbol", "val": <symbol without the ^>}`.
    pub fn to_hayson(&self) -> (r: Json)
        ensures
            is_flat_object(r, symbol_fields(self@)),
    {
        let code = self.to_axon_code();
        let len = code.unicode_len();
        let mut fields: Vec<(String, Json)> = Vec::new();
        fields.push(text_entry("_kind", "symbol"));
        fields.push(text_entry("val", code.substring_char(1, len)));
        Json::Object(fields)
    }
}

// Markers, remove markers and NA: the tag alone.

pub open spec fn tag_fields(tag: Seq<char>) -> Seq<(Seq<char>, FieldValue)> {
    seq![(kind_key(), FieldValue::Text(tag))]
}

fn tag_object(tag: &str) -> (r: Json)
    ensures
        is_flat_object(r, tag_fields(tag@)),
{
    let mut fields: Vec<(String, Json)> = Vec::new();
    fields.push(text_entry("_kind", tag));
    Json::Object(fields)
}

impl Marker {
    /// Decode a marker from `{"_kind": "marker"}`; other keys are ignored.
    pub fn from_hayson(value: &Json) -> (r: Result<Marker, FromHaysonError>)
        ensures
            decoded_unit(r) == tag_error(*value, "marker"@),
    {
        if !value.is_object() {
            return error(HaysonErrorKind::MissingTag, "Marker JSON value must be an object");
        }
        match check_kind("marker", value) {
            Some(kind_err) => Err(kind_err),
            None => Ok(Marker::new()),
        }
    }

    /// Encode this marker as `{"_kind": "marker"}`.
    pub fn to_hayson(&self) -> (r: Json)
        ensures
            is_flat_object(r, tag_fields("marker"@)),
    {
        tag_object("marker")
    }
}

impl RemoveMarker {
    /// Decode a remove marker from `{"_kind": "remove"}`; other keys are ignored.
    pub fn from_hayson(value: &Json) -> (r: Result<RemoveMarker, FromHaysonError>)
        ensures
            decoded_unit(r) == tag_error(*value, "remove"@),
    {
        if !value.is_object() {
            return error(HaysonErrorKind::MissingTag, "RemoveMarker JSON value must be an object");
        }
        match check_kind("remove", value) {
            Some(kind_err) => Err(kind_err),
            None => Ok(RemoveMarker::new()),
        }
    }

    /// Encode this remove marker as `{"_kind": "remove"}`.
    pub fn to_hayson(&self) -> (r: Json)
        ensures
            is_flat_object(r, tag_fields("remove"@)),
    {
        tag_object("remove")
    }
}

impl Na {
    /// Decode an NA from `{"_kind": "na"}`; other keys are ignored.
    pub fn from_hayson(value: &Json) -> (r: Result<Na, FromHaysonError>)
        ensures
            decoded_unit(r) == tag_error(*value, "na"@),
    {
        if !value.is_object() {
            return error(HaysonErrorKind::MissingTag, "NA JSON value must be an object");
        }
        match check_kind("na", value) {
            Some(kind_err) => Err(kind_err),
            None => Ok(Na::new()),
        }
    }

    /// Encode this NA as `{"_kind": "na"}`.
    pub fn to_hayson(&self) -> (r: Json)
        ensures
            is_flat_object(r, tag_fields("na"@)),
    {
        tag_object("na")
    }
}

// Uris.

pub open spec fn uri_from_json(j: Json) -> Result<Seq<char>, HaysonErrorKind> {
    match tag_error(j, "uri"@) {
        Some(e) => Err(e),
        None => match json_get(j, "val"@) {
            None => Err(HaysonErrorKind::MissingField),
            Some(Json::String(v)) => Ok(v@),
            Some(_) => Err(HaysonErrorKind::WrongFieldType),
        },
    }
}

pub open spec fn uri_fields(u: Seq<char>) -> Seq<(Seq<char>, FieldValue)> {
    seq![(kind_key(), FieldValue::Text("uri"@)), ("val"@, FieldValue::Text(u))]
}

impl Uri {
    /// Decode a uri from `{"_kind": "uri", "val": <string>}`.
    pub fn from_hayson(value: &Json) -> (r: Result<Uri, FromHaysonError>)
        ensures
            decoded(r) == uri_from_json(*value),
    {
        if !value.is_object() {
            return error(HaysonErrorKind::MissingTag, "Uri JSON value must be an object");
        }
        if let Some(kind_err) = check_kind("uri", value) {
            return Err(kind_err);
        }
        let val = match value.get("val") {
            Some(val) => val,
            None => return error(HaysonErrorKind::MissingField, "Uri val is missing"),
        };
        match val.as_str() {
            Some(val) => Ok(Uri::new(val.to_owned())),
            None => error(HaysonErrorKind::WrongFieldType, "Uri val is not a string"),
        }
    }

    /// Encode this uri as `{"_kind": "uri", "val": <string>}`.
    pub fn to_hayson(&self) -> (r: Json)
        ensures
            is_flat_object(r, uri_fields(self@)),
    {
        let mut fields: Vec<(String, Json)> = Vec::new();
        fields.push(text_entry("_kind", "uri"));
        fields.push(text_entry("val", self.as_str()));
        Json::Object(fields)
    }
}

// Xstrs.

pub open spec fn xstr_from_json(j: Json) -> Result<XstrView, HaysonErrorKind> {
    match tag_error(j, "xstr"@) {
        Some(e) => Err(e),
        None => match json_get(j, "val"@) {
            None => Err(HaysonErrorKind::MissingField),
            Some(Json::String(v)) => match json_get(j, "type"@) {
                None => Err(HaysonErrorKind::MissingField),
                Some(Json::String(t)) => Ok(XstrView { type_str: t@, value: v@ }),
                Some(_) => Err(HaysonErrorKind::WrongFieldType),
            },
            Some(_) => Err(HaysonErrorKind::WrongFieldType),
        },
    }
}

pub open spec fn xstr_fields(x: XstrView) -> Seq<(Seq<char>, FieldValue)> {
    seq![
        (kind_key(), FieldValue::Text("xstr"@)),
        ("type"@, FieldValue::Text(x.type_str)),
        ("val"@, FieldValue::Text(x.value)),
    ]
}

impl Xstr {
    /// Decode an xstr from `{"_kind": "xstr", "type": <string>, "val": <string>}`.
    pub fn from_hayson(value: &Json) -> (r: Result<Xstr, FromHaysonError>)
        ensures
            decoded(r) == xstr_from_json(*value),
    {
        if !value.is_object() {
            return error(HaysonErrorKind::MissingTag, "Xstr JSON value must be an object");
        }
        if let Some(kind_err) = check_kind("xstr", value) {
            return Err(kind_err);
        }
        let val = match value.get("val") {
            Some(val) => val,
            None => return error(HaysonErrorKind::MissingField, "Xstr val is missing"),
        };
        let val = match val.as_str() {
            Some(val) => val,
            None => return error(HaysonErrorKind::WrongFieldType, "Xstr val is not a string"),
        };
        let type_str = match value.get("type") {
            Some(t) => t,
            None => return error(HaysonErrorKind::MissingField, "Xstr type is missing"),
        };
        let type_str = match type_str.as_str() {
            Some(t) => t,
            None => return error(HaysonErrorKind::WrongFieldType, "Xstr type is not a string"),
        };
        Ok(Xstr::new(type_str.to_owned(), val.to_owned()))
    }

    /// Encode this xstr as `{"_kind": "xstr", "type": <string>, "val": <string>}`.
    pub fn to_hayson(&self) -> (r: Json)
        ensures
            is_flat_object(r, xstr_fields(self@)),
    {
        let mut fields: Vec<(String, Json)> = Vec::new();
        fields.push(text_entry("_kind", "xstr"));
        fields.push(text_entry("type", self.type_str()));
        fields.push(text_entry("val", self.value()));
        Json::Object(fields)
    }
}

// Coords.

pub open spec fn coord_from_json(j: Json) -> Result<Coord, HaysonErrorKind> {
    match tag_error(j, "coord"@) {
        Some(e) => Err(e),
        None => match (json_get(j, "lat"@), json_get(j, "lng"@)) {
            (None, _) => Err(HaysonErrorKind::MissingField),
            (_, None) => Err(HaysonErrorKind::MissingField),
            (Some(Json::Number(lat)), Some(Json::Number(lng))) => Ok(Coord { lat, lng }),
            _ => Err(HaysonErrorKind::WrongFieldType),
        },
    }
}

pub open spec fn coord_fields(c: Coord) -> Seq<(Seq<char>, FieldValue)> {
    seq![
        (kind_key(), FieldValue::Text("coord"@)),
        ("lat"@, double_field(c.lat)),
        ("lng"@, double_field(c.lng)),
    ]
}

impl Coord {
    /// Decode a coord from `{"_kind": "coord", "lat": <number>, "lng": <number>}`.
    pub fn from_hayson(value: &Json) -> (r: Result<Coord, FromHaysonError>)
        ensures
            match r {
                Ok(c) => coord_from_json(*value) == Ok::<Coord, HaysonErrorKind>(c),
                Err(e) => coord_from_json(*value) == Err::<Coord, HaysonErrorKind>(e@),
            },
    {
        if !value.is_object() {
            return error(HaysonErrorKind::MissingTag, "Coord JSON value must be an object");
        }
        if let Some(kind_err) = check_kind("coord", value) {
            return Err(kind_err);
        }
        let lat = value.get("lat");
        let lng = value.get("lng");
        let lat = match lat {
            Some(lat) => lat,
            None => return error(HaysonErrorKind::MissingField, "Coord lat is missing"),
        };
        let lng = match lng {
            Some(lng) => lng,
            None => return error(HaysonErrorKind::MissingField, "Coord lng is missing"),
        };
        let lat = match lat.as_double() {
            Some(lat) => lat,
            None => return error(HaysonErrorKind::WrongFieldType, "Coord lat is not a f64"),
        };
        let lng = match lng.as_double() {
            Some(lng) => lng,
            None => return error(HaysonErrorKind::WrongFieldType, "Coord lng is not a f64"),
        };
        Ok(Coord::new(lat, lng))
    }

    /// Encode this coord as `{"_kind": "coord", "lat": <number>, "lng": <number>}`.
    pub fn to_hayson(&self) -> (r: Json)
        ensures
            is_flat_object(r, coord_fields(*self)),
    {
        let mut fields: Vec<(String, Json)> = Vec::new();
        fields.push(text_entry("_kind", "coord"));
        fields.push(double_entry("lat", self.lat));
        fields.push(double_entry("lng", self.lng));
        Json::Object(fields)
    }
}

} // verus!
