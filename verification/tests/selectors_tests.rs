use operator_framework::selectors::ToSelector;

#[test]
fn test_empty() {
    let labels: Vec<(String, String)> = Vec::new();
    assert_eq!("", labels.to_selector());
}

#[test]
fn test_single() {
    let mut labels = Vec::new();
    labels.push(("foo".to_string(), "bar".to_string()));
    assert_eq!("foo=bar", labels.to_selector());
}

#[test]
fn test_multiple() {
    let mut labels = Vec::new();
    labels.push(("foo".to_string(), "bar".to_string()));
    labels.push(("bar".to_string(), "baz".to_string()));
    let sel = labels.to_selector();

    assert!(sel == "foo=bar,bar=baz" || sel == "bar=baz,foo=bar");
}
