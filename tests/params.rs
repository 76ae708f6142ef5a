use bingmaps::text::push_decimal;
use bingmaps::Params;

#[test]
fn insert_replaces_in_place() {
    let mut p = Params::new();
    p.insert("a", "1");
    p.insert("b", "2");
    p.insert("a", "3");
    assert_eq!(p.len(), 2);
    assert_eq!(p.entries()[0], ("a".to_string(), "3".to_string()));
    assert_eq!(p.entries()[1], ("b".to_string(), "2".to_string()));
    assert_eq!(p.get("c"), None);
}

#[test]
fn optional_values_are_added_only_when_given() {
    let mut p = Params::new();
    p.insert_opt("a", &None);
    assert_eq!(p.len(), 0);
    p.insert_opt("a", &Some("x".to_string()));
    assert_eq!(p.get("a"), Some("x".to_string()));
}

#[test]
fn decimal_text() {
    let mut s = String::from("n=");
    push_decimal(&mut s, 0);
    assert_eq!(s, "n=0");
    let mut s = String::new();
    push_decimal(&mut s, u64::MAX);
    assert_eq!(s, "18446744073709551615");
}
