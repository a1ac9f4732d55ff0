use raystack_core::Symbol;

#[test]
fn parse_symbol() {
    assert_eq!(Symbol::is_valid_symbol("^steam"), true);
    assert_eq!(Symbol::is_valid_symbol("^steam-boiler"), true);
    assert_eq!(Symbol::is_valid_symbol("^azAZ09"), true);
    assert_eq!(Symbol::is_valid_symbol("^azAZ09-azAZ09"), true);
    assert_eq!(Symbol::is_valid_symbol("^"), false);
    assert_eq!(Symbol::is_valid_symbol(""), false);
    assert_eq!(Symbol::is_valid_symbol("^steam:boiler"), true);
    assert_eq!(Symbol::is_valid_symbol("^steam-boiler:boiler-steam"), true);
    assert_eq!(Symbol::is_valid_symbol("^az0-az0-az0:az0-az0"), true);
    assert_eq!(Symbol::is_valid_symbol("^steam:boiler:another"), false);
    assert_eq!(Symbol::is_valid_symbol("^steam_-__boil_er"), true);
}

#[test]
fn to_json_works() {
    let sym = Symbol::new("^steam-boiler".to_owned()).unwrap();
    assert_eq!(sym.to_encoded_json_string(), "y:steam-boiler");
}

#[test]
fn from_json_works() {
    let sym = Symbol::new("^steam-boiler".to_owned()).unwrap();
    assert_eq!(
        Symbol::from_encoded_json_string("y:steam-boiler").unwrap(),
        sym
    );
}

#[test]
fn to_str_works() {
    let sym = Symbol::new("^steam-boiler".to_owned()).unwrap();
    assert_eq!(sym.to_string(), "^steam-boiler");
}

#[test]
fn symbol_acceptance() {
    assert!(Symbol::is_valid_symbol("^steam-boiler:sub-part"));
    assert!(!Symbol::is_valid_symbol("^steam:boiler:another"));
    // A section needs a lowercase letter somewhere.
    assert!(!Symbol::is_valid_symbol("^ABC"));
    assert!(!Symbol::is_valid_symbol("^steam:"));
    assert!(!Symbol::is_valid_symbol("steam"));
    let err = Symbol::new("^ABC".to_owned()).unwrap_err();
    assert_eq!(err.to_string(), "Could not parse a Symbol from the string ^ABC");
}
