use raystack_core::{parse_number_text, Number, NumberLiteral, ScientificNumber};

#[test]
fn axon_code_of_plain_numbers() {
    let n = Number::new(1.5f64.to_bits(), Some("m".to_owned()));
    assert_eq!(n.to_axon_code("1.5"), "1.5m");
    assert_eq!(n.to_display_string("1.5"), "1.5 m");
    let n = Number::new(1.5f64.to_bits(), None);
    assert_eq!(n.to_axon_code("1.5"), "1.5");
    assert_eq!(n.to_display_string("1.5"), "1.5");
}

#[test]
fn axon_code_of_special_values() {
    let nan = Number::new(f64::NAN.to_bits(), Some("m".to_owned()));
    assert_eq!(nan.to_axon_code("x"), "nan().as(\"m\")");
    assert_eq!(nan.to_display_string("x"), "NaN m");
    let inf = Number::new(f64::INFINITY.to_bits(), Some("m".to_owned()));
    assert_eq!(inf.to_axon_code("x"), "posInf().as(\"m\")");
    assert_eq!(inf.to_display_string("x"), "INF m");
    let ninf = Number::new(f64::NEG_INFINITY.to_bits(), None);
    assert_eq!(ninf.to_axon_code("x"), "negInf()");
    assert_eq!(ninf.to_display_string("x"), "-INF");
    assert_eq!(Number::new(f64::NAN.to_bits(), None).to_axon_code("x"), "nan()");
}

#[test]
fn axon_code_of_scientific_numbers() {
    let n = Number::new_scientific_unitless(6.62607015f64.to_bits(), -34).unwrap();
    assert_eq!(n.to_axon_code("6.62607015"), "6.62607015e-34");
    let n = Number::new_scientific(1.5f64.to_bits(), 120, Some("m".to_owned())).unwrap();
    assert_eq!(n.to_axon_code("1.5"), "1.5e120m");
    assert_eq!(n.to_display_string("1.5"), "1.5e120 m");
    let n = Number::new_scientific_unitless(1.0f64.to_bits(), i32::MIN).unwrap();
    assert_eq!(n.to_axon_code("1"), "1e-2147483648");
    let n = Number::new_scientific_unitless(1.0f64.to_bits(), 0).unwrap();
    assert_eq!(n.to_axon_code("1"), "1e0");
}

#[test]
fn scientific_significand_must_be_finite() {
    assert!(Number::new_scientific(f64::NAN.to_bits(), 1, None).is_none());
    assert!(Number::new_scientific(f64::INFINITY.to_bits(), 1, None).is_none());
    assert!(ScientificNumber::new_unitless(f64::NEG_INFINITY.to_bits(), 1).is_none());
    let s = ScientificNumber::new(2.0f64.to_bits(), -3, Some("s".to_owned())).unwrap();
    assert_eq!(s.significand(), 2.0f64.to_bits());
    assert_eq!(s.exponent(), -3);
    assert_eq!(s.unit(), Some("s"));
}

#[test]
fn number_accessors() {
    let n = Number::new(3.0f64.to_bits(), Some("kW".to_owned()));
    assert_eq!(n.unit(), Some("kW"));
    assert!(n.as_scientific_number().is_none());
    assert_eq!(n.as_number().unwrap().value(), 3.0f64.to_bits());
    assert!(Number::new_unitless(3.0f64.to_bits()).unit().is_none());
}

fn to_number(s: &str) -> Option<Number> {
    let text = parse_number_text(s).ok()?;
    let mantissa = match text.mantissa() {
        Some(m) => m.parse::<f64>().ok()?.to_bits(),
        None => 0,
    };
    text.into_number(mantissa)
}

#[test]
fn parse_scientific_text() {
    let text = parse_number_text("n:1.23e+47 min").unwrap();
    assert_eq!(text.magnitude, NumberLiteral::Scientific("1.23".to_owned(), 47));
    assert_eq!(text.unit, Some("min".to_owned()));
    let n = to_number("n:1.23e+47 min").unwrap();
    let sci = n.as_scientific_number().unwrap();
    assert_eq!(sci.significand(), 1.23f64.to_bits());
    assert_eq!(sci.exponent(), 47);
    assert_eq!(sci.unit(), Some("min"));
}

#[test]
fn parse_signed_nan_text() {
    let text = parse_number_text("n:-NaN").unwrap();
    assert_eq!(text.magnitude, NumberLiteral::NaN);
    let n = to_number("n:-NaN").unwrap();
    assert!(f64::from_bits(n.as_number().unwrap().value()).is_nan());
    assert!(n.unit().is_none());
    assert_eq!(parse_number_text("n:+NaN").unwrap().magnitude, NumberLiteral::NaN);
}

#[test]
fn parse_plain_and_special_text() {
    let n = to_number("n:-12.5 kW").unwrap();
    assert_eq!(n, Number::new((-12.5f64).to_bits(), Some("kW".to_owned())));
    let n = to_number("n:INF").unwrap();
    assert_eq!(n, Number::new(f64::INFINITY.to_bits(), None));
    let n = to_number("n:-INF m").unwrap();
    assert_eq!(n, Number::new(f64::NEG_INFINITY.to_bits(), Some("m".to_owned())));
    let text = parse_number_text("n:6.62607015e-34").unwrap();
    assert_eq!(text.magnitude, NumberLiteral::Scientific("6.62607015".to_owned(), -34));
}

#[test]
fn parse_rejects_malformed_text() {
    for bad in ["1.0", "n:", "n:abc", "n:1.2.3", "n:1e", "n:1e99999999999", "n:.5", "n:5.", "n:1 ", "n:inf", "n:1e2e3"] {
        let err = parse_number_text(bad).unwrap_err();
        assert_eq!(err.to_string(), format!("Could not parse a Number from the string {}", bad));
    }
}
