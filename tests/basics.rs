use raystack_core::{Marker, Na, Qname, RemoveMarker, Uri, Xstr};

#[test]
fn it_works() {
    assert_eq!(2 + 2, 4);
}

#[test]
fn markers_are_all_equal() {
    assert_eq!(Marker::new(), Marker::default());
    assert_eq!(RemoveMarker::new(), RemoveMarker::default());
    assert_eq!(Na::new(), Na::default());
}

#[test]
fn qname_keeps_its_text() {
    let q = Qname::new("core::parseNumber".to_owned());
    assert_eq!(q.qname(), "core::parseNumber");
    assert_eq!(q.to_string(), "core::parseNumber");
}

#[test]
fn uri_axon_code_is_quoted() {
    let u = Uri::new("http://www.google.com".to_owned());
    assert_eq!(u.to_axon_code(), "`http://www.google.com`");
    assert_eq!(u.to_string(), "`http://www.google.com`");
    assert_eq!(u.into_string(), "http://www.google.com");
}

#[test]
fn xstr_text_forms() {
    let x = Xstr::new("Color".to_owned(), "red".to_owned());
    assert_eq!(x.type_str(), "Color");
    assert_eq!(x.value(), "red");
    assert_eq!(x.to_axon_code(), "xstr(\"Color\", \"red\")");
    assert_eq!(x.to_string(), "Color(\"red\")");
}
