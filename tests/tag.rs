use raystack_core::TagName;

#[test]
fn is_tag_name() {
    assert_eq!(raystack_core::is_tag_name("siteRef"), true);
    assert_eq!(raystack_core::is_tag_name("s"), true);
    assert_eq!(raystack_core::is_tag_name("s1"), true);
    assert_eq!(raystack_core::is_tag_name(""), false);
    assert_eq!(raystack_core::is_tag_name("1s"), false);
    assert_eq!(raystack_core::is_tag_name("s%"), false);
    assert_eq!(raystack_core::is_tag_name("s-"), false);
    assert_eq!(raystack_core::is_tag_name("s_s"), true);
    assert_eq!(raystack_core::is_tag_name("_s"), false);
    assert_eq!(raystack_core::is_tag_name("s_"), true);
}

#[test]
fn tag_name_construction() {
    let t = TagName::new("siteRef".to_owned()).unwrap();
    assert_eq!(t.to_string(), "siteRef");
    assert_eq!(t.into_string(), "siteRef");
    assert!(TagName::new("Site".to_owned()).is_none());
    let parsed: Result<TagName, _> = "s%".parse();
    let err = parsed.unwrap_err();
    assert_eq!(err.to_string(), "Could not parse a tag name from the string s%");
}
