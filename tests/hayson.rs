use raystack_core::{
    Coord, HaysonErrorKind, Json, Marker, Na, Number, Ref, RemoveMarker, Symbol, Uri, Xstr,
};

fn text(s: &str) -> Json {
    Json::String(s.to_owned())
}

fn object(entries: Vec<(&str, Json)>) -> Json {
    Json::Object(entries.into_iter().map(|(k, v)| (k.to_owned(), v)).collect())
}

fn num(x: f64) -> Json {
    Json::Number(x.to_bits())
}

#[test]
fn serde_coord_works() {
    let coord = Coord::new(1.23f64.to_bits(), 4.56f64.to_bits());
    let value = coord.to_hayson();
    let deserialized = Coord::from_hayson(&value).unwrap();
    assert_eq!(coord, deserialized);
}

#[test]
fn serde_ref_works() {
    let hsref = Ref::new("@abc".to_owned()).unwrap();
    let value = hsref.to_hayson();
    let deserialized = Ref::from_hayson(&value).unwrap();
    assert_eq!(hsref, deserialized);
}

#[test]
fn serde_number_nan_works() {
    let num = Number::new(f64::NAN.to_bits(), None);
    let value = num.to_hayson(0);
    let deserialized = Number::from_hayson(&value).unwrap();
    let deserialized = deserialized.as_number().unwrap();
    assert!(f64::from_bits(deserialized.value()).is_nan());
    assert!(deserialized.unit().is_none())
}

#[test]
fn serde_number_posinf_unitless_works() {
    let num = Number::new(f64::INFINITY.to_bits(), None);
    let value = num.to_hayson(0);
    let deserialized = Number::from_hayson(&value).unwrap();
    assert_eq!(num, deserialized);
}

#[test]
fn serde_number_posinf_units_works() {
    let num = Number::new(f64::INFINITY.to_bits(), Some("m/s".to_owned()));
    let value = num.to_hayson(0);
    let deserialized = Number::from_hayson(&value).unwrap();
    let deserialized = deserialized.as_number().unwrap();

    assert!(f64::from_bits(deserialized.value()).is_infinite());
    assert!(f64::from_bits(deserialized.value()).is_sign_positive());
    assert!(deserialized.unit().is_none());
}

#[test]
fn serde_number_neginf_unitless_works() {
    let num = Number::new(f64::NEG_INFINITY.to_bits(), None);
    let value = num.to_hayson(0);
    let deserialized = Number::from_hayson(&value).unwrap();
    assert_eq!(num, deserialized);
}

#[test]
fn serde_number_neginf_units_works() {
    let num = Number::new(f64::NEG_INFINITY.to_bits(), Some("m/s".to_owned()));
    let value = num.to_hayson(0);
    let deserialized = Number::from_hayson(&value).unwrap();
    let deserialized = deserialized.as_number().unwrap();

    assert!(f64::from_bits(deserialized.value()).is_infinite());
    assert!(f64::from_bits(deserialized.value()).is_sign_negative());
    assert!(deserialized.unit().is_none());
}

#[test]
fn serde_number_unitless_works() {
    let num = Number::new(1.23f64.to_bits(), None);
    let value = num.to_hayson(0);
    let deserialized = Number::from_hayson(&value).unwrap();
    assert_eq!(num, deserialized);
}

#[test]
fn serde_number_units_works() {
    let num = Number::new(1.23f64.to_bits(), Some("m/s".to_owned()));
    let value = num.to_hayson(0);
    let deserialized = Number::from_hayson(&value).unwrap();
    assert_eq!(num, deserialized);
}

fn evaluate(num: &Number) -> u64 {
    let sci = num.as_scientific_number().unwrap();
    (f64::from_bits(sci.significand()) * 10f64.powi(sci.exponent())).to_bits()
}

#[test]
fn serde_number_scientific_unitless_barely_works() {
    let num = Number::new_scientific_unitless(6.62607015f64.to_bits(), -34).unwrap();
    let value = num.to_hayson(evaluate(&num));
    let deserialized = Number::from_hayson(&value).unwrap();

    // Scientific notation numbers are evaluated, then written as a plain double.
    let basic = deserialized.as_number().unwrap();
    assert_eq!(f64::from_bits(basic.value()), 0.000000000000000000000000000000000662607015);
}

#[test]
fn serde_number_scientific_units_barely_works() {
    let num =
        Number::new_scientific(6.62607015f64.to_bits(), -34, Some("m/s".to_owned())).unwrap();
    let value = num.to_hayson(evaluate(&num));
    let deserialized = Number::from_hayson(&value).unwrap();

    let basic = deserialized.as_number().unwrap();
    assert_eq!(f64::from_bits(basic.value()), 0.000000000000000000000000000000000662607015);
    assert_eq!(basic.unit(), Some("m/s"));
}

#[test]
fn serde_symbol_works() {
    let sym = Symbol::new("^abc".to_owned()).unwrap();
    let value = sym.to_hayson();
    let deserialized = Symbol::from_hayson(&value).unwrap();
    assert_eq!(sym, deserialized);
}

#[test]
fn serde_marker_works() {
    let x = Marker::new();
    let value = x.to_hayson();
    let deserialized = Marker::from_hayson(&value).unwrap();
    assert_eq!(x, deserialized);
}

#[test]
fn serde_remove_marker_works() {
    let x = RemoveMarker::new();
    let value = x.to_hayson();
    let deserialized = RemoveMarker::from_hayson(&value).unwrap();
    assert_eq!(x, deserialized);
}

#[test]
fn serde_na_works() {
    let x = Na::new();
    let value = x.to_hayson();
    let deserialized = Na::from_hayson(&value).unwrap();
    assert_eq!(x, deserialized);
}

#[test]
fn serde_uri_works() {
    let x = Uri::new("http://www.google.com".to_owned());
    let value = x.to_hayson();
    let deserialized = Uri::from_hayson(&value).unwrap();
    assert_eq!(x, deserialized);
}

#[test]
fn serde_xstr_works() {
    let x = Xstr::new("Color".to_owned(), "red".to_owned());
    let value = x.to_hayson();
    let deserialized = Xstr::from_hayson(&value).unwrap();
    assert_eq!(x, deserialized);
}

#[test]
fn number_with_unit_encodes_exactly() {
    let n = Number::new(1.23f64.to_bits(), Some("m/s".to_owned()));
    let expected = object(vec![("_kind", text("number")), ("val", num(1.23)), ("unit", text("m/s"))]);
    let value = n.to_hayson(0);
    assert_eq!(value, expected);
    assert_eq!(Number::from_hayson(&value).unwrap(), n);
}

#[test]
fn infinity_with_unit_drops_unit() {
    let n = Number::new(f64::INFINITY.to_bits(), Some("m/s".to_owned()));
    let value = n.to_hayson(0);
    assert_eq!(value, object(vec![("_kind", text("number")), ("val", text("INF"))]));
    let back = Number::from_hayson(&value).unwrap();
    assert_eq!(back, Number::new(f64::INFINITY.to_bits(), None));
    let neg = Number::new(f64::NEG_INFINITY.to_bits(), Some("m/s".to_owned()));
    assert_eq!(neg.to_hayson(0), object(vec![("_kind", text("number")), ("val", text("-INF"))]));
}

#[test]
fn nan_encodes_as_string() {
    let n = Number::new(f64::NAN.to_bits(), None);
    let value = n.to_hayson(0);
    assert_eq!(value, object(vec![("_kind", text("number")), ("val", text("NaN"))]));
    let back = Number::from_hayson(&value).unwrap();
    assert!(f64::from_bits(back.as_number().unwrap().value()).is_nan());
    assert!(back.unit().is_none());
}

#[test]
fn nan_string_drops_supplied_unit() {
    let value = object(vec![("_kind", text("number")), ("val", text("NaN")), ("unit", text("m"))]);
    let back = Number::from_hayson(&value).unwrap();
    assert!(back.unit().is_none());
    let value = object(vec![("_kind", text("number")), ("val", text("INF")), ("unit", text("m"))]);
    assert_eq!(Number::from_hayson(&value).unwrap().unit(), Some("m"));
}

#[test]
fn plain_unitless_number_writes_null_unit() {
    let n = Number::new(2.5f64.to_bits(), None);
    let expected = object(vec![("_kind", text("number")), ("val", num(2.5)), ("unit", Json::Null)]);
    assert_eq!(n.to_hayson(0), expected);
}

#[test]
fn bare_json_number_decodes() {
    let back = Number::from_hayson(&num(42.0)).unwrap();
    assert_eq!(back, Number::new(42.0f64.to_bits(), None));
}

#[test]
fn overflowing_scientific_value_is_null() {
    let n = Number::new_scientific(1.0f64.to_bits(), 400, None).unwrap();
    let value = n.to_hayson(f64::INFINITY.to_bits());
    let expected = object(vec![("_kind", text("number")), ("val", Json::Null), ("unit", Json::Null)]);
    assert_eq!(value, expected);
    assert_eq!(Number::from_hayson(&value).unwrap_err().kind(), HaysonErrorKind::WrongFieldType);
}

#[test]
fn ref_encodes_without_at_sign() {
    let r = Ref::new("@abc".to_owned()).unwrap();
    let value = r.to_hayson();
    assert_eq!(value, object(vec![("_kind", text("ref")), ("val", text("abc"))]));
    assert_eq!(Ref::from_hayson(&value).unwrap().to_axon_code(), "@abc");
    let s = Symbol::new("^steam".to_owned()).unwrap();
    assert_eq!(s.to_hayson(), object(vec![("_kind", text("symbol")), ("val", text("steam"))]));
}

#[test]
fn tag_errors_come_first() {
    let missing = object(vec![]);
    assert_eq!(Ref::from_hayson(&missing).unwrap_err().kind(), HaysonErrorKind::MissingTag);
    assert_eq!(Xstr::from_hayson(&missing).unwrap_err().kind(), HaysonErrorKind::MissingTag);
    assert_eq!(Coord::from_hayson(&missing).unwrap_err().kind(), HaysonErrorKind::MissingTag);
    let not_string = object(vec![("_kind", num(1.0))]);
    assert_eq!(Uri::from_hayson(&not_string).unwrap_err().kind(), HaysonErrorKind::TagNotString);
    let wrong = object(vec![("_kind", text("uri"))]);
    assert_eq!(Number::from_hayson(&wrong).unwrap_err().kind(), HaysonErrorKind::TagMismatch);
    assert_eq!(Marker::from_hayson(&wrong).unwrap_err().kind(), HaysonErrorKind::TagMismatch);
    assert_eq!(Na::from_hayson(&wrong).unwrap_err().kind(), HaysonErrorKind::TagMismatch);
    assert_eq!(RemoveMarker::from_hayson(&wrong).unwrap_err().kind(), HaysonErrorKind::TagMismatch);
    assert_eq!(Symbol::from_hayson(&text("abc")).unwrap_err().kind(), HaysonErrorKind::MissingTag);
}

#[test]
fn field_errors() {
    let no_val = object(vec![("_kind", text("ref"))]);
    assert_eq!(Ref::from_hayson(&no_val).unwrap_err().kind(), HaysonErrorKind::MissingField);
    let bad_val = object(vec![("_kind", text("ref")), ("val", num(1.0))]);
    assert_eq!(Ref::from_hayson(&bad_val).unwrap_err().kind(), HaysonErrorKind::WrongFieldType);
    let bad_grammar = object(vec![("_kind", text("ref")), ("val", text("a/b"))]);
    assert_eq!(Ref::from_hayson(&bad_grammar).unwrap_err().kind(), HaysonErrorKind::InvalidGrammar);
    let bad_symbol = object(vec![("_kind", text("symbol")), ("val", text("a:b:c"))]);
    assert_eq!(Symbol::from_hayson(&bad_symbol).unwrap_err().kind(), HaysonErrorKind::InvalidGrammar);
    let bad_literal = object(vec![("_kind", text("number")), ("val", text("inf"))]);
    assert_eq!(Number::from_hayson(&bad_literal).unwrap_err().kind(), HaysonErrorKind::InvalidLiteral);
    let bad_unit = object(vec![("_kind", text("number")), ("val", num(1.0)), ("unit", num(2.0))]);
    assert_eq!(Number::from_hayson(&bad_unit).unwrap_err().kind(), HaysonErrorKind::WrongFieldType);
    let bool_val = object(vec![("_kind", text("number")), ("val", Json::Bool(true))]);
    assert_eq!(Number::from_hayson(&bool_val).unwrap_err().kind(), HaysonErrorKind::WrongFieldType);
    let no_type = object(vec![("_kind", text("xstr")), ("val", text("red"))]);
    assert_eq!(Xstr::from_hayson(&no_type).unwrap_err().kind(), HaysonErrorKind::MissingField);
    let no_lng = object(vec![("_kind", text("coord")), ("lat", num(1.0))]);
    assert_eq!(Coord::from_hayson(&no_lng).unwrap_err().kind(), HaysonErrorKind::MissingField);
    let text_lat = object(vec![("_kind", text("coord")), ("lat", text("1")), ("lng", num(1.0))]);
    assert_eq!(Coord::from_hayson(&text_lat).unwrap_err().kind(), HaysonErrorKind::WrongFieldType);
}

#[test]
fn error_messages() {
    let wrong = object(vec![("_kind", text("uri"))]);
    let err = Ref::from_hayson(&wrong).unwrap_err();
    assert_eq!(err.message(), "Expected '_kind' = ref but found uri");
    let missing = object(vec![]);
    assert_eq!(Ref::from_hayson(&missing).unwrap_err().message(), "Missing '_kind' key");
    let err = Uri::from_hayson(&Json::Array(vec![])).unwrap_err();
    assert_eq!(err.kind(), HaysonErrorKind::MissingTag);
    assert_eq!(err.message(), "Uri JSON value must be an object");
}

#[test]
fn json_get_reads_objects_only() {
    let o = object(vec![("a", num(1.0)), ("b", text("x"))]);
    assert_eq!(o.get("b"), Some(&text("x")));
    assert_eq!(o.get("c"), None);
    assert_eq!(text("a").get("a"), None);
    assert_eq!(o.get("b").unwrap().as_str(), Some("x"));
    assert_eq!(o.get("a").unwrap().as_double(), Some(1.0f64.to_bits()));
}
