use raystack_core::Ref;

#[test]
fn parse_ref() {
    assert_eq!(Ref::is_valid_ref("@p:some_proj:r:1e85e02f-0459cf96"), true);
    assert_eq!(Ref::is_valid_ref("@H.NAE_05.NAE~2d05~2fFC~2d2~2eFD~2d21-VAV~2d10~2d17~2eVAV~2d10~2d17-ZNT~2dSP~2eTrend1"), true);
    assert_eq!(Ref::is_valid_ref("@"), false);
    assert_eq!(Ref::is_valid_ref(""), false);
    assert_eq!(Ref::is_valid_ref("@o/o"), false);
    assert_eq!(Ref::is_valid_ref("@o,o"), false);
    assert_eq!(Ref::is_valid_ref("@o|o"), false);
}

#[test]
fn ref_grammar_examples() {
    assert!(Ref::is_valid_ref("@p:proj:r:abc-123"));
    assert!(!Ref::is_valid_ref("abc"));
    assert!(!Ref::is_valid_ref("@a b"));
    // Letters outside ASCII are alphanumeric too.
    assert!(Ref::is_valid_ref("@caf\u{e9}"));
    assert!(!Ref::is_valid_ref("@caf\u{2603}"));
}

#[test]
fn ref_encoded_json_string() {
    let r = Ref::new("@p:bigProject:r:24efe1c4-24aef280".to_owned()).unwrap();
    assert_eq!(r.to_encoded_json_string(), "r:p:bigProject:r:24efe1c4-24aef280");
    let decoded = Ref::from_encoded_json_string("r:p:bigProject:r:24efe1c4-24aef280 Display Name").unwrap();
    assert_eq!(decoded, r);
    assert_eq!(decoded.to_axon_code(), "@p:bigProject:r:24efe1c4-24aef280");
    let err = Ref::from_encoded_json_string("x:abc").unwrap_err();
    assert_eq!(err.to_string(), "Could not parse a Ref from the string x:abc");
}

#[test]
fn ref_new_rejects_and_keeps_input() {
    let err = Ref::new("@o/o".to_owned()).unwrap_err();
    assert_eq!(err.to_string(), "Could not parse a Ref from the string @o/o");
    let r: Ref = "@abc".parse().unwrap();
    assert_eq!(r.to_string(), "@abc");
    assert_eq!(r.clone().into_string(), "@abc");
}
